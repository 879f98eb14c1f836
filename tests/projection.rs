use std::collections::HashMap;

use library::content::{FileInfo, Heading, Page, PageFrontMatter, Section, SectionFrontMatter};
use library::index::{Library, TranslationGroup};
use library::ser::{SerializingPage, SerializingSection, TranslatedContent};

fn file(path: &str, relative: &str, canonical: &str) -> FileInfo {
    FileInfo {
        path: path.to_string(),
        relative: relative.to_string(),
        canonical: canonical.to_string(),
    }
}

fn page(path: &str, canonical: &str, lang: &str) -> Page {
    Page {
        file: file(path, path, canonical),
        meta: PageFrontMatter {
            title: Some(format!("title of {}", path)),
            description: None,
            updated: None,
            date: None,
            datetime_tuple: None,
            draft: false,
            taxonomies: HashMap::new(),
            extra: tera::Map::new(),
        },
        lang: lang.to_string(),
        permalink: format!("https://example.com/{}", path),
        slug: "post".to_string(),
        path: format!("/{}", path),
        content: "<p>body</p>".to_string(),
        summary: None,
        toc: vec![],
        word_count: Some(2),
        reading_time: Some(1),
        components: vec![],
        serialized_assets: vec![],
        ancestors: vec![],
        lighter: None,
        heavier: None,
        earlier_updated: None,
        later_updated: None,
        earlier: None,
        later: None,
        title_prev: None,
        title_next: None,
    }
}

fn section(path: &str, canonical: &str, lang: &str) -> Section {
    Section {
        file: file(path, path, canonical),
        meta: SectionFrontMatter {
            title: Some(format!("section {}", path)),
            description: None,
            draft: false,
            extra: tera::Map::new(),
        },
        lang: lang.to_string(),
        permalink: format!("https://example.com/{}", path),
        path: format!("/{}", path),
        content: String::new(),
        toc: vec![],
        word_count: None,
        reading_time: None,
        components: vec![],
        serialized_assets: vec![],
        pages: vec![],
        subsections: vec![],
        includers: vec![],
        ancestors: vec![],
    }
}

fn empty_library() -> Library {
    Library {
        pages: vec![],
        sections: vec![],
        page_translations: vec![],
        section_translations: vec![],
    }
}

fn nav_slots<'a, 'b>(v: &'b SerializingPage<'a>) -> Vec<&'b Option<Box<SerializingPage<'a>>>> {
    vec![
        &v.lighter,
        &v.heavier,
        &v.earlier_updated,
        &v.later_updated,
        &v.earlier,
        &v.later,
        &v.title_prev,
        &v.title_next,
    ]
}

#[test]
fn date_is_split_into_parts() {
    let mut p = page("en/post.md", "post", "en");
    p.meta.date = Some("2024-03-15".to_string());
    p.meta.datetime_tuple = Some((2024, 3, 15));
    let v = SerializingPage::from_page_basic(&p, None);
    assert_eq!(v.year, Some(2024));
    assert_eq!(v.month, Some(3));
    assert_eq!(v.day, Some(15));
    assert_eq!(v.date, &Some("2024-03-15".to_string()));
}

#[test]
fn no_date_leaves_parts_absent() {
    let p = page("en/post.md", "post", "en");
    let v = SerializingPage::from_page_basic(&p, None);
    assert_eq!(v.year, None);
    assert_eq!(v.month, None);
    assert_eq!(v.day, None);
}

#[test]
fn end_to_end_page_with_translation_and_ancestors() {
    let mut lib = empty_library();
    lib.sections.push(section("blog", "blog", "en"));
    lib.sections.push(section("blog/2024", "blog/2024", "en"));
    let mut en = page("en/post.md", "post.md", "en");
    en.ancestors = vec![0, 1];
    lib.pages.push(en);
    lib.pages.push(page("fr/post.md", "post.md", "fr"));
    lib.page_translations.push(TranslationGroup { canonical: "post.md".to_string(), keys: vec![0, 1] });

    let v = SerializingPage::from_page(&lib.pages[0], &lib);
    assert_eq!(v.ancestors, vec!["blog", "blog/2024"]);
    assert_eq!(v.translations.len(), 1);
    let t = &v.translations[0];
    assert_eq!(t.lang, "fr");
    assert_eq!(t.permalink, "https://example.com/fr/post.md");
    assert_eq!(t.title, &Some("title of fr/post.md".to_string()));
    assert_eq!(t.path, "fr/post.md");
    for slot in nav_slots(&v) {
        assert!(slot.is_none());
    }
    assert_eq!(v.relative_path, "en/post.md");
    assert_eq!(v.lang, "en");
    assert_eq!(v.word_count, Some(2));
}

#[test]
fn full_without_nav_equals_basic_with_index() {
    let mut lib = empty_library();
    lib.sections.push(section("blog", "blog", "en"));
    let mut p = page("en/a.md", "a.md", "en");
    p.ancestors = vec![0];
    lib.pages.push(p);
    lib.pages.push(page("de/a.md", "a.md", "de"));
    lib.page_translations.push(TranslationGroup { canonical: "a.md".to_string(), keys: vec![1, 0] });
    let full = SerializingPage::from_page(&lib.pages[0], &lib);
    let basic = SerializingPage::from_page_basic(&lib.pages[0], Some(&lib));
    assert_eq!(full, basic);
}

#[test]
fn nav_slot_holds_basic_view_one_level_deep() {
    let mut lib = empty_library();
    let mut a = page("a.md", "a.md", "en");
    let mut b = page("b.md", "b.md", "en");
    // The pointers form a cycle: a -> b -> a.
    a.later = Some(1);
    a.title_next = Some(1);
    b.earlier = Some(0);
    b.lighter = Some(0);
    lib.pages.push(a);
    lib.pages.push(b);
    let v = SerializingPage::from_page(&lib.pages[0], &lib);
    let later = v.later.as_ref().expect("later is set");
    assert_eq!(**later, SerializingPage::from_page_basic(&lib.pages[1], Some(&lib)));
    assert_eq!(later.relative_path, "b.md");
    for slot in nav_slots(later) {
        assert!(slot.is_none());
    }
    assert!(v.title_next.is_some());
    assert!(v.lighter.is_none());
    assert!(v.earlier.is_none());
}

#[test]
fn translations_exclude_self_and_keep_group_order() {
    let mut lib = empty_library();
    lib.pages.push(page("en/x.md", "x.md", "en"));
    lib.pages.push(page("fr/x.md", "x.md", "fr"));
    lib.pages.push(page("it/x.md", "x.md", "it"));
    lib.page_translations.push(TranslationGroup { canonical: "x.md".to_string(), keys: vec![2, 0, 1] });
    let t = TranslatedContent::find_all_pages(&lib.pages[0], &lib);
    assert_eq!(t.len(), 2);
    assert_eq!(t[0].path, "it/x.md");
    assert_eq!(t[1].path, "fr/x.md");
    for r in &t {
        assert_ne!(r.path, "en/x.md");
    }
    let t2 = TranslatedContent::find_all_pages(&lib.pages[2], &lib);
    assert_eq!(t2.iter().map(|r| r.lang).collect::<Vec<_>>(), vec!["en", "fr"]);
}

#[test]
fn missing_translation_group_gives_no_translations() {
    let mut lib = empty_library();
    lib.pages.push(page("en/solo.md", "solo.md", "en"));
    lib.page_translations.push(TranslationGroup { canonical: "other.md".to_string(), keys: vec![0] });
    assert!(TranslatedContent::find_all_pages(&lib.pages[0], &lib).is_empty());
}

#[test]
fn first_group_of_an_identity_is_used() {
    let mut lib = empty_library();
    lib.pages.push(page("en/d.md", "d.md", "en"));
    lib.pages.push(page("fr/d.md", "d.md", "fr"));
    lib.pages.push(page("es/d.md", "d.md", "es"));
    lib.page_translations.push(TranslationGroup { canonical: "d.md".to_string(), keys: vec![0, 1] });
    lib.page_translations.push(TranslationGroup { canonical: "d.md".to_string(), keys: vec![0, 2] });
    let t = TranslatedContent::find_all_pages(&lib.pages[0], &lib);
    assert_eq!(t.len(), 1);
    assert_eq!(t[0].lang, "fr");
}

#[test]
fn section_translations_exclude_self() {
    let mut lib = empty_library();
    lib.sections.push(section("en/_index.md", "_index.md", "en"));
    lib.sections.push(section("fr/_index.md", "_index.md", "fr"));
    lib.section_translations.push(TranslationGroup { canonical: "_index.md".to_string(), keys: vec![0, 1] });
    let t = TranslatedContent::find_all_sections(&lib.sections[1], &lib);
    assert_eq!(t.len(), 1);
    assert_eq!(t[0].path, "en/_index.md");
    assert_eq!(t[0].title, &Some("section en/_index.md".to_string()));
}

#[test]
fn basic_page_without_index_resolves_nothing() {
    let mut p = page("en/p.md", "p.md", "en");
    p.ancestors = vec![7];
    p.lighter = Some(3);
    let v = SerializingPage::from_page_basic(&p, None);
    assert!(v.ancestors.is_empty());
    assert!(v.translations.is_empty());
    assert!(v.lighter.is_none());
    assert_eq!(v.permalink, "https://example.com/en/p.md");
}

#[test]
fn page_fields_are_copied() {
    let mut p = page("en/f.md", "f.md", "en");
    p.components = vec!["youtube".to_string()];
    p.serialized_assets = vec!["img.png".to_string()];
    p.summary = Some("sum".to_string());
    p.meta.draft = true;
    p.meta.taxonomies.insert("tags".to_string(), vec!["rust".to_string()]);
    p.meta.extra.insert("k".to_string(), tera::Value::Bool(true));
    p.toc = vec![Heading {
        level: 1,
        id: "h".to_string(),
        permalink: "#h".to_string(),
        title: "H".to_string(),
        children: vec![],
    }];
    let v = SerializingPage::from_page_basic(&p, None);
    assert_eq!(v.components, &["youtube".to_string()][..]);
    assert_eq!(v.assets, &["img.png".to_string()][..]);
    assert_eq!(v.summary, &Some("sum".to_string()));
    assert!(v.draft);
    assert_eq!(v.taxonomies.get("tags"), Some(&vec!["rust".to_string()]));
    assert_eq!(v.extra.get("k"), Some(&tera::Value::Bool(true)));
    assert_eq!(v.toc.len(), 1);
    assert_eq!(v.toc[0].id, "h");
    assert_eq!(v.slug, "post");
    assert_eq!(v.path, "/en/f.md");
    assert_eq!(v.content, "<p>body</p>");
    assert_eq!(v.reading_time, Some(1));
}

#[test]
fn get_title_returns_page_title() {
    let p = page("en/t.md", "t.md", "en");
    let v = SerializingPage::from_page_basic(&p, None);
    assert_eq!(v.get_title(), &Some("title of en/t.md".to_string()));
}

#[test]
fn section_full_view_lists_children() {
    let mut lib = empty_library();
    let mut root = section("_index.md", "_index.md", "en");
    root.pages = vec![0, 1];
    root.subsections = vec![1];
    lib.sections.push(root);
    let mut blog = section("blog/_index.md", "blog/_index.md", "en");
    blog.ancestors = vec![0];
    lib.sections.push(blog);
    let mut p0 = page("a.md", "a.md", "en");
    p0.ancestors = vec![0];
    p0.later = Some(1);
    lib.pages.push(p0);
    lib.pages.push(page("b.md", "b.md", "en"));

    let v = SerializingSection::from_section(&lib.sections[0], &lib);
    assert_eq!(v.pages.len(), 2);
    assert_eq!(v.pages[0], SerializingPage::from_page_basic(&lib.pages[0], Some(&lib)));
    assert_eq!(v.pages[0].ancestors, vec!["_index.md"]);
    assert!(v.pages[0].later.is_none());
    assert_eq!(v.pages[1].relative_path, "b.md");
    assert_eq!(v.subsections, vec!["blog/_index.md"]);
    assert!(v.includers.is_empty());
    assert!(v.ancestors.is_empty());

    let sub = SerializingSection::from_section(&lib.sections[1], &lib);
    assert_eq!(sub.ancestors, vec!["_index.md"]);
}

#[test]
fn cyclic_includers_are_paths() {
    let mut lib = empty_library();
    let mut a = section("a/_index.md", "a/_index.md", "en");
    let mut b = section("b/_index.md", "b/_index.md", "en");
    a.includers = vec![1];
    b.includers = vec![0];
    a.subsections = vec![1];
    b.subsections = vec![0];
    lib.sections.push(a);
    lib.sections.push(b);
    let va = SerializingSection::from_section(&lib.sections[0], &lib);
    let vb = SerializingSection::from_section(&lib.sections[1], &lib);
    assert_eq!(va.includers, vec!["b/_index.md"]);
    assert_eq!(vb.includers, vec!["a/_index.md"]);
    assert_eq!(va.subsections, vec!["b/_index.md"]);
    assert_eq!(vb.subsections, vec!["a/_index.md"]);
}

#[test]
fn basic_section_with_and_without_index() {
    let mut lib = empty_library();
    let mut a = section("en/s/_index.md", "s/_index.md", "en");
    a.pages = vec![0];
    a.subsections = vec![1];
    a.includers = vec![1];
    a.ancestors = vec![1];
    lib.sections.push(a);
    lib.sections.push(section("fr/s/_index.md", "s/_index.md", "fr"));
    lib.pages.push(page("p.md", "p.md", "en"));
    lib.section_translations.push(TranslationGroup { canonical: "s/_index.md".to_string(), keys: vec![0, 1] });

    let bare = SerializingSection::from_section_basic(&lib.sections[0], None);
    assert!(bare.pages.is_empty());
    assert!(bare.subsections.is_empty());
    assert!(bare.includers.is_empty());
    assert!(bare.ancestors.is_empty());
    assert!(bare.translations.is_empty());
    assert_eq!(bare.relative_path, "en/s/_index.md");

    let with = SerializingSection::from_section_basic(&lib.sections[0], Some(&lib));
    assert!(with.pages.is_empty());
    assert_eq!(with.subsections, vec!["fr/s/_index.md"]);
    assert_eq!(with.includers, vec!["fr/s/_index.md"]);
    assert_eq!(with.ancestors, vec!["fr/s/_index.md"]);
    assert_eq!(with.translations.len(), 1);
    assert_eq!(with.translations[0].lang, "fr");
}

#[test]
fn integrity_check_accepts_resolvable_keys() {
    let mut lib = empty_library();
    lib.sections.push(section("s", "s", "en"));
    let mut p = page("a.md", "a.md", "en");
    p.ancestors = vec![0];
    p.heavier = Some(0);
    lib.pages.push(p);
    lib.page_translations.push(TranslationGroup { canonical: "a.md".to_string(), keys: vec![0] });
    assert!(lib.check_integrity());
    assert!(lib.check_page_refs(&lib.pages[0]));
    assert!(lib.check_section_refs(&lib.sections[0]));
}

#[test]
fn integrity_check_rejects_dangling_keys() {
    let mut lib = empty_library();
    lib.sections.push(section("s", "s", "en"));
    let mut p = page("a.md", "a.md", "en");
    p.title_next = Some(1);
    lib.pages.push(p);
    assert!(!lib.check_page_refs(&lib.pages[0]));
    assert!(!lib.check_integrity());

    let mut lib2 = empty_library();
    let mut s = section("s", "s", "en");
    s.includers = vec![3];
    lib2.sections.push(s);
    assert!(!lib2.check_section_refs(&lib2.sections[0]));
    assert!(!lib2.check_integrity());

    let mut lib3 = empty_library();
    lib3.section_translations.push(TranslationGroup { canonical: "x".to_string(), keys: vec![0] });
    assert!(!lib3.check_integrity());
}
