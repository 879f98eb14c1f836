//! The records handed to templates: translation references, page views and
//! section views, each borrowing from the content index.
use std::collections::HashMap;

use vstd::prelude::*;

use crate::content::{Heading, Page, Section};
use crate::index::{groups_below, keys_below, lemma_group_member_below, Library};

verus! {

/// What a translation reference says of one entity.
pub struct TranslationRef {
    pub lang: Seq<char>,
    pub permalink: Seq<char>,
    pub title: Option<String>,
    pub path: Seq<char>,
}

/// The translation reference of a page.
pub open spec fn page_ref(p: Page) -> TranslationRef {
    TranslationRef {
        lang: p.lang@,
        permalink: p.permalink@,
        title: p.meta.title,
        path: p.file.path@,
    }
}

/// The translation reference of a section.
pub open spec fn section_ref(s: Section) -> TranslationRef {
    TranslationRef {
        lang: s.lang@,
        permalink: s.permalink@,
        title: s.meta.title,
        path: s.file.path@,
    }
}

impl Library {
    /// The keys of the other pages in the translation group of `p`, in the
    /// group's order: every member but those with `p`'s own source path.
    pub open spec fn page_translation_keys(&self, p: Page) -> Seq<usize> {
        self.page_group(p.file.canonical@).filter(self.other_page(p))
    }

    /// Holds of the keys of pages other than `p`, told apart by source path.
    pub open spec fn other_page(&self, p: Page) -> spec_fn(usize) -> bool {
        |k: usize| self.pages@[k as int].file.path@ != p.file.path@
    }

    /// The translation references of page `p`.
    pub open spec fn page_translation_refs(&self, p: Page) -> Seq<TranslationRef> {
        self.page_translation_keys(p).map_values(|k: usize| page_ref(self.pages@[k as int]))
    }

    /// The keys of the other sections in the translation group of `s`.
    pub open spec fn section_translation_keys(&self, s: Section) -> Seq<usize> {
        self.section_group(s.file.canonical@).filter(self.other_section(s))
    }

    /// Holds of the keys of sections other than `s`, told apart by source path.
    pub open spec fn other_section(&self, s: Section) -> spec_fn(usize) -> bool {
        |k: usize| self.sections@[k as int].file.path@ != s.file.path@
    }

    /// The translation references of section `s`.
    pub open spec fn section_translation_refs(&self, s: Section) -> Seq<TranslationRef> {
        self.section_translation_keys(s).map_values(
            |k: usize| section_ref(self.sections@[k as int]),
        )
    }

    /// The relative paths of the sections with the given keys, in order.
    pub open spec fn section_paths(&self, keys: Seq<usize>) -> Seq<Seq<char>> {
        keys.map_values(|k: usize| self.sections@[k as int].file.relative@)
    }
}

/// A reference to the same content in another language.
#[derive(Clone, Debug, PartialEq)]
pub struct TranslatedContent<'a> {
    pub lang: &'a str,
    pub permalink: &'a str,
    pub title: &'a Option<String>,
    /// The path to the source file; it retrieves the full entity.
    pub path: &'a str,
}

impl<'a> View for TranslatedContent<'a> {
    type V = TranslationRef;

    open spec fn view(&self) -> TranslationRef {
        TranslationRef {
            lang: self.lang@,
            permalink: self.permalink@,
            title: *self.title,
            path: self.path@,
        }
    }
}

/// The views of a sequence of translation references.
pub open spec fn ref_views<'a>(v: Seq<TranslatedContent<'a>>) -> Seq<TranslationRef> {
    v.map_values(|t: TranslatedContent<'a>| t@)
}

/// The views of a sequence of borrowed strings.
pub open spec fn str_views<'a>(v: Seq<&'a str>) -> Seq<Seq<char>> {
    v.map_values(|s: &'a str| s@)
}

impl<'a> TranslatedContent<'a> {
    /// The translations of a section: every other member of its translation
    /// group, in the group's order.
    pub fn find_all_sections(section: &'a Section, library: &'a Library) -> (r: Vec<Self>)
        requires
            groups_below(library.section_translations@, library.sections@.len() as int),
        ensures
            ref_views(r@) == library.section_translation_refs(*section),
    {
        let keys = library.get_section_translations(&section.file.canonical);
        let ghost pred = library.other_section(*section);
        let mut translations: Vec<TranslatedContent<'a>> = Vec::new();
        let mut i: usize = 0;
        while i < keys.len()
            invariant
                0 <= i <= keys@.len(),
                keys@ == library.section_group(section.file.canonical@),
                pred == library.other_section(*section),
                groups_below(library.section_translations@, library.sections@.len() as int),
                ref_views(translations@) == keys@.take(i as int).filter(pred).map_values(
                    |k: usize| section_ref(library.sections@[k as int]),
                ),
            decreases keys@.len() - i,
        {
            let key = keys[i];
            proof {
                lemma_group_member_below(
                    library.section_translations@,
                    section.file.canonical@,
                    library.sections@.len() as int,
                    i as int,
                );
                assert(keys@.take(i as int + 1) =~= keys@.take(i as int).push(key));
                keys@.take(i as int).lemma_filter_push(key, pred);
            }
            let other = library.get_section_by_key(key);
            if !(other.file.path == section.file.path) {
                let t = TranslatedContent {
                    lang: other.lang.as_str(),
                    permalink: other.permalink.as_str(),
                    title: &other.meta.title,
                    path: other.file.path.as_str(),
                };
                let ghost prev = translations@;
                translations.push(t);
                assert(t@ == section_ref(library.sections@[key as int]));
                assert(ref_views(translations@) =~= ref_views(prev).push(t@));
                assert(ref_views(translations@) =~= keys@.take(i as int + 1).filter(pred).map_values(
                    |k: usize| section_ref(library.sections@[k as int]),
                ));
            }
            i = i + 1;
        }
        assert(keys@.take(keys@.len() as int) =~= keys@);
        translations
    }

    /// The translations of a page: every other member of its translation
    /// group, in the group's order.
    pub fn find_all_pages(page: &'a Page, library: &'a Library) -> (r: Vec<Self>)
        requires
            groups_below(library.page_translations@, library.pages@.len() as int),
        ensures
            ref_views(r@) == library.page_translation_refs(*page),
    {
        let keys = library.get_page_translations(&page.file.canonical);
        let ghost pred = library.other_page(*page);
        let mut translations: Vec<TranslatedContent<'a>> = Vec::new();
        let mut i: usize = 0;
        while i < keys.len()
            invariant
                0 <= i <= keys@.len(),
                keys@ == library.page_group(page.file.canonical@),
                pred == library.other_page(*page),
                groups_below(library.page_translations@, library.pages@.len() as int),
                ref_views(translations@) == keys@.take(i as int).filter(pred).map_values(
                    |k: usize| page_ref(library.pages@[k as int]),
                ),
            decreases keys@.len() - i,
        {
            let key = keys[i];
            proof {
                lemma_group_member_below(
                    library.page_translations@,
                    page.file.canonical@,
                    library.pages@.len() as int,
                    i as int,
                );
                assert(keys@.take(i as int + 1) =~= keys@.take(i as int).push(key));
                keys@.take(i as int).lemma_filter_push(key, pred);
            }
            let other = library.get_page_by_key(key);
            if !(other.file.path == page.file.path) {
                let t = TranslatedContent {
                    lang: other.lang.as_str(),
                    permalink: other.permalink.as_str(),
                    title: &other.meta.title,
                    path: other.file.path.as_str(),
                };
                let ghost prev = translations@;
                translations.push(t);
                assert(t@ == page_ref(library.pages@[key as int]));
                assert(ref_views(translations@) =~= ref_views(prev).push(t@));
                assert(ref_views(translations@) =~= keys@.take(i as int + 1).filter(pred).map_values(
                    |k: usize| page_ref(library.pages@[k as int]),
                ));
            }
            i = i + 1;
        }
        assert(keys@.take(keys@.len() as int) =~= keys@);
        translations
    }
}

/// What a page view holds, field by field.
pub struct PageSnapshot {
    pub relative_path: Seq<char>,
    pub content: Seq<char>,
    pub permalink: Seq<char>,
    pub slug: Seq<char>,
    pub ancestors: Seq<Seq<char>>,
    pub title: Option<String>,
    pub description: Option<String>,
    pub updated: Option<String>,
    pub date: Option<String>,
    pub year: Option<i32>,
    pub month: Option<u32>,
    pub day: Option<u32>,
    pub taxonomies: HashMap<String, Vec<String>>,
    pub extra: tera::Map<String, tera::Value>,
    pub path: Seq<char>,
    pub components: Seq<String>,
    pub summary: Option<String>,
    pub toc: Seq<Heading>,
    pub word_count: Option<usize>,
    pub reading_time: Option<usize>,
    pub assets: Seq<String>,
    pub draft: bool,
    pub lang: Seq<char>,
    pub lighter: Option<Box<PageSnapshot>>,
    pub heavier: Option<Box<PageSnapshot>>,
    pub earlier_updated: Option<Box<PageSnapshot>>,
    pub later_updated: Option<Box<PageSnapshot>>,
    pub earlier: Option<Box<PageSnapshot>>,
    pub later: Option<Box<PageSnapshot>>,
    pub title_prev: Option<Box<PageSnapshot>>,
    pub title_next: Option<Box<PageSnapshot>>,
    pub translations: Seq<TranslationRef>,
}

impl PageSnapshot {
    /// The eight navigation slots, in declaration order.
    pub open spec fn nav_slots(&self) -> Seq<Option<Box<PageSnapshot>>> {
        seq![
            self.lighter,
            self.heavier,
            self.earlier_updated,
            self.later_updated,
            self.earlier,
            self.later,
            self.title_prev,
            self.title_next,
        ]
    }

    /// No navigation slot is filled.
    pub open spec fn has_no_nav(&self) -> bool {
        forall|i: int| 0 <= i < 8 ==> self.nav_slots()[i] is None
    }
}

/// The page's own fields, with the given ancestor paths and translations and
/// every navigation slot empty.
pub open spec fn page_fields(
    p: Page,
    ancestors: Seq<Seq<char>>,
    translations: Seq<TranslationRef>,
) -> PageSnapshot {
    PageSnapshot {
        relative_path: p.file.relative@,
        content: p.content@,
        permalink: p.permalink@,
        slug: p.slug@,
        ancestors,
        title: p.meta.title,
        description: p.meta.description,
        updated: p.meta.updated,
        date: p.meta.date,
        year: match p.meta.datetime_tuple {
            Some(d) => Some(d.0),
            None => None,
        },
        month: match p.meta.datetime_tuple {
            Some(d) => Some(d.1),
            None => None,
        },
        day: match p.meta.datetime_tuple {
            Some(d) => Some(d.2),
            None => None,
        },
        taxonomies: p.meta.taxonomies,
        extra: p.meta.extra,
        path: p.path@,
        components: p.components@,
        summary: p.summary,
        toc: p.toc@,
        word_count: p.word_count,
        reading_time: p.reading_time,
        assets: p.serialized_assets@,
        draft: p.meta.draft,
        lang: p.lang@,
        lighter: None,
        heavier: None,
        earlier_updated: None,
        later_updated: None,
        earlier: None,
        later: None,
        title_prev: None,
        title_next: None,
        translations,
    }
}

/// The basic view of page `p`: no navigation, and ancestors and translations
/// only when an index is given.
pub open spec fn basic_page(p: Page, lib: Option<&Library>) -> PageSnapshot {
    match lib {
        Some(l) => page_fields(p, l.section_paths(p.ancestors@), l.page_translation_refs(p)),
        None => page_fields(p, Seq::empty(), Seq::empty()),
    }
}

/// The navigation slot for pointer `k`: the basic view of the page it names.
pub open spec fn nav_page(lib: &Library, k: Option<usize>) -> Option<Box<PageSnapshot>> {
    match k {
        Some(k) => Some(Box::new(basic_page(lib.pages@[k as int], Some(lib)))),
        None => None,
    }
}

/// The full view of page `p`: its basic view with the index, and each
/// navigation pointer resolved one level deep.
pub open spec fn full_page(p: Page, lib: &Library) -> PageSnapshot {
    let b = basic_page(p, Some(lib));
    PageSnapshot {
        lighter: nav_page(lib, p.lighter),
        heavier: nav_page(lib, p.heavier),
        earlier_updated: nav_page(lib, p.earlier_updated),
        later_updated: nav_page(lib, p.later_updated),
        earlier: nav_page(lib, p.earlier),
        later: nav_page(lib, p.later),
        title_prev: nav_page(lib, p.title_prev),
        title_next: nav_page(lib, p.title_next),
        ..b
    }
}

/// The view of a page, as handed to templates.
#[derive(Debug, PartialEq)]
pub struct SerializingPage<'a> {
    pub relative_path: &'a str,
    pub content: &'a str,
    pub permalink: &'a str,
    pub slug: &'a str,
    pub ancestors: Vec<&'a str>,
    pub title: &'a Option<String>,
    pub description: &'a Option<String>,
    pub updated: &'a Option<String>,
    pub date: &'a Option<String>,
    pub year: Option<i32>,
    pub month: Option<u32>,
    pub day: Option<u32>,
    pub taxonomies: &'a HashMap<String, Vec<String>>,
    pub extra: &'a tera::Map<String, tera::Value>,
    pub path: &'a str,
    pub components: &'a [String],
    pub summary: &'a Option<String>,
    pub toc: &'a [Heading],
    pub word_count: Option<usize>,
    pub reading_time: Option<usize>,
    pub assets: &'a [String],
    pub draft: bool,
    pub lang: &'a str,
    pub lighter: Option<Box<SerializingPage<'a>>>,
    pub heavier: Option<Box<SerializingPage<'a>>>,
    pub earlier_updated: Option<Box<SerializingPage<'a>>>,
    pub later_updated: Option<Box<SerializingPage<'a>>>,
    pub earlier: Option<Box<SerializingPage<'a>>>,
    pub later: Option<Box<SerializingPage<'a>>>,
    pub title_prev: Option<Box<SerializingPage<'a>>>,
    pub title_next: Option<Box<SerializingPage<'a>>>,
    pub translations: Vec<TranslatedContent<'a>>,
}

/// The snapshot of a page view, nested views included.
pub open spec fn page_view<'a>(v: SerializingPage<'a>) -> PageSnapshot
    decreases v,
{
    PageSnapshot {
        relative_path: v.relative_path@,
        content: v.content@,
        permalink: v.permalink@,
        slug: v.slug@,
        ancestors: str_views(v.ancestors@),
        title: *v.title,
        description: *v.description,
        updated: *v.updated,
        date: *v.date,
        year: v.year,
        month: v.month,
        day: v.day,
        taxonomies: *v.taxonomies,
        extra: *v.extra,
        path: v.path@,
        components: v.components@,
        summary: *v.summary,
        toc: v.toc@,
        word_count: v.word_count,
        reading_time: v.reading_time,
        assets: v.assets@,
        draft: v.draft,
        lang: v.lang@,
        lighter: match v.lighter {
            Some(b) => Some(Box::new(page_view(*b))),
            None => None,
        },
        heavier: match v.heavier {
            Some(b) => Some(Box::new(page_view(*b))),
            None => None,
        },
        earlier_updated: match v.earlier_updated {
            Some(b) => Some(Box::new(page_view(*b))),
            None => None,
        },
        later_updated: match v.later_updated {
            Some(b) => Some(Box::new(page_view(*b))),
            None => None,
        },
        earlier: match v.earlier {
            Some(b) => Some(Box::new(page_view(*b))),
            None => None,
        },
        later: match v.later {
            Some(b) => Some(Box::new(page_view(*b))),
            None => None,
        },
        title_prev: match v.title_prev {
            Some(b) => Some(Box::new(page_view(*b))),
            None => None,
        },
        title_next: match v.title_next {
            Some(b) => Some(Box::new(page_view(*b))),
            None => None,
        },
        translations: ref_views(v.translations@),
    }
}

impl<'a> View for SerializingPage<'a> {
    type V = PageSnapshot;

    open spec fn view(&self) -> PageSnapshot {
        page_view(*self)
    }
}

/// The relative paths of the sections with the given keys.
fn section_paths<'a>(keys: &Vec<usize>, library: &'a Library) -> (r: Vec<&'a str>)
    requires
        keys_below(keys@, library.sections@.len() as int),
    ensures
        str_views(r@) == library.section_paths(keys@),
{
    let mut paths: Vec<&'a str> = Vec::with_capacity(keys.len());
    let mut i: usize = 0;
    while i < keys.len()
        invariant
            0 <= i <= keys@.len(),
            keys_below(keys@, library.sections@.len() as int),
            str_views(paths@) =~= library.section_paths(keys@.take(i as int)),
        decreases keys@.len() - i,
    {
        let p = library.get_section_path_by_key(keys[i]);
        let ghost prev = paths@;
        paths.push(p);
        assert(str_views(paths@) =~= str_views(prev).push(p@));
        assert(keys@.take(i as int + 1) =~= keys@.take(i as int).push(keys@[i as int]));
        i = i + 1;
    }
    assert(keys@.take(keys@.len() as int) =~= keys@);
    paths
}

/// Reads a stored date into its (year, month, day) parts.
fn split_date(d: Option<(i32, u32, u32)>) -> (r: (Option<i32>, Option<u32>, Option<u32>))
    ensures
        r.0 == (match d {
            Some(t) => Some(t.0),
            None => None::<i32>,
        }),
        r.1 == (match d {
            Some(t) => Some(t.1),
            None => None::<u32>,
        }),
        r.2 == (match d {
            Some(t) => Some(t.2),
            None => None::<u32>,
        }),
{
    match d {
        Some(t) => (Some(t.0), Some(t.1), Some(t.2)),
        None => (None, None, None),
    }
}

/// The basic view of the page that a navigation pointer names, if any.
fn nav_view<'a>(key: Option<usize>, library: &'a Library) -> (r: Option<Box<SerializingPage<'a>>>)
    requires
        library.wf(),
        crate::index::opt_key_below(key, library.pages@.len() as int),
    ensures
        match key {
            Some(k) => r matches Some(b) && page_view(*b) == basic_page(
                library.pages@[k as int],
                Some(library),
            ),
            None => r is None,
        },
{
    match key {
        Some(k) => {
            let other = library.get_page_by_key(k);
            Some(Box::new(SerializingPage::from_page_basic(other, Some(library))))
        },
        None => None,
    }
}

impl<'a> SerializingPage<'a> {
    /// The full view of a page: everything of its basic view with the index,
    /// and each navigation pointer resolved to the basic view of its target.
    pub fn from_page(page: &'a Page, library: &'a Library) -> (r: Self)
        requires
            library.wf(),
            library.page_refs_valid(*page),
        ensures
            r@ == full_page(*page, library),
    {
        proof {
            assert(page.nav_keys()[0] == page.lighter);
            assert(page.nav_keys()[1] == page.heavier);
            assert(page.nav_keys()[2] == page.earlier_updated);
            assert(page.nav_keys()[3] == page.later_updated);
            assert(page.nav_keys()[4] == page.earlier);
            assert(page.nav_keys()[5] == page.later);
            assert(page.nav_keys()[6] == page.title_prev);
            assert(page.nav_keys()[7] == page.title_next);
        }
        let mut r = Self::from_page_basic(page, Some(library));
        r.lighter = nav_view(page.lighter, library);
        r.heavier = nav_view(page.heavier, library);
        r.earlier_updated = nav_view(page.earlier_updated, library);
        r.later_updated = nav_view(page.later_updated, library);
        r.earlier = nav_view(page.earlier, library);
        r.later = nav_view(page.later, library);
        r.title_prev = nav_view(page.title_prev, library);
        r.title_next = nav_view(page.title_next, library);
        r
    }

    /// The title of the page this view was made from.
    pub fn get_title(&'a self) -> (r: &'a Option<String>)
        ensures
            *r == self@.title,
    {
        self.title
    }

    /// Same as `from_page` but leaves every navigation slot empty. Ancestors
    /// and translations are resolved only when an index is given.
    pub fn from_page_basic(page: &'a Page, library: Option<&'a Library>) -> (r: Self)
        requires
            library matches Some(l) ==> l.wf() && l.page_refs_valid(*page),
        ensures
            r@ == basic_page(*page, library),
    {
        let (year, month, day) = split_date(page.meta.datetime_tuple);
        let ancestors = match library {
            Some(lib) => section_paths(&page.ancestors, lib),
            None => Vec::new(),
        };
        let translations = match library {
            Some(lib) => TranslatedContent::find_all_pages(page, lib),
            None => Vec::new(),
        };
        let r = SerializingPage {
            relative_path: page.file.relative.as_str(),
            ancestors,
            content: page.content.as_str(),
            permalink: page.permalink.as_str(),
            slug: page.slug.as_str(),
            title: &page.meta.title,
            description: &page.meta.description,
            extra: &page.meta.extra,
            updated: &page.meta.updated,
            date: &page.meta.date,
            year,
            month,
            day,
            taxonomies: &page.meta.taxonomies,
            path: page.path.as_str(),
            components: page.components.as_slice(),
            summary: &page.summary,
            toc: page.toc.as_slice(),
            word_count: page.word_count,
            reading_time: page.reading_time,
            assets: page.serialized_assets.as_slice(),
            draft: page.meta.draft,
            lang: page.lang.as_str(),
            lighter: None,
            heavier: None,
            earlier_updated: None,
            later_updated: None,
            earlier: None,
            later: None,
            title_prev: None,
            title_next: None,
            translations,
        };
        proof {
            if library is None {
                assert(str_views(r.ancestors@) =~= Seq::empty());
                assert(ref_views(r.translations@) =~= Seq::empty());
            }
        }
        r
    }
}

/// What a section view holds, field by field.
pub struct SectionSnapshot {
    pub relative_path: Seq<char>,
    pub content: Seq<char>,
    pub permalink: Seq<char>,
    pub draft: bool,
    pub ancestors: Seq<Seq<char>>,
    pub title: Option<String>,
    pub description: Option<String>,
    pub extra: tera::Map<String, tera::Value>,
    pub path: Seq<char>,
    pub components: Seq<String>,
    pub toc: Seq<Heading>,
    pub word_count: Option<usize>,
    pub reading_time: Option<usize>,
    pub lang: Seq<char>,
    pub assets: Seq<String>,
    pub pages: Seq<PageSnapshot>,
    pub subsections: Seq<Seq<char>>,
    pub translations: Seq<TranslationRef>,
    pub includers: Seq<Seq<char>>,
}

/// The section's own fields, with the given resolved references.
pub open spec fn section_fields(
    s: Section,
    ancestors: Seq<Seq<char>>,
    pages: Seq<PageSnapshot>,
    subsections: Seq<Seq<char>>,
    includers: Seq<Seq<char>>,
    translations: Seq<TranslationRef>,
) -> SectionSnapshot {
    SectionSnapshot {
        relative_path: s.file.relative@,
        content: s.content@,
        permalink: s.permalink@,
        draft: s.meta.draft,
        ancestors,
        title: s.meta.title,
        description: s.meta.description,
        extra: s.meta.extra,
        path: s.path@,
        components: s.components@,
        toc: s.toc@,
        word_count: s.word_count,
        reading_time: s.reading_time,
        lang: s.lang@,
        assets: s.serialized_assets@,
        pages,
        subsections,
        translations,
        includers,
    }
}

/// The basic views, with the index, of the pages with the given keys.
pub open spec fn child_pages(lib: &Library, keys: Seq<usize>) -> Seq<PageSnapshot> {
    keys.map_values(|k: usize| basic_page(lib.pages@[k as int], Some(lib)))
}

/// The full view of section `s`: its child pages as basic page views, and its
/// subsections and includers as relative paths.
pub open spec fn full_section(s: Section, lib: &Library) -> SectionSnapshot {
    section_fields(
        s,
        lib.section_paths(s.ancestors@),
        child_pages(lib, s.pages@),
        lib.section_paths(s.subsections@),
        lib.section_paths(s.includers@),
        lib.section_translation_refs(s),
    )
}

/// The basic view of section `s`: no child pages, and its references
/// resolved only when an index is given.
pub open spec fn basic_section(s: Section, lib: Option<&Library>) -> SectionSnapshot {
    match lib {
        Some(l) => section_fields(
            s,
            l.section_paths(s.ancestors@),
            Seq::empty(),
            l.section_paths(s.subsections@),
            l.section_paths(s.includers@),
            l.section_translation_refs(s),
        ),
        None => section_fields(
            s,
            Seq::empty(),
            Seq::empty(),
            Seq::empty(),
            Seq::empty(),
            Seq::empty(),
        ),
    }
}

/// The view of a section, as handed to templates. Subsections and includers
/// are paths, never nested section views.
#[derive(Debug, PartialEq)]
pub struct SerializingSection<'a> {
    pub relative_path: &'a str,
    pub content: &'a str,
    pub permalink: &'a str,
    pub draft: bool,
    pub ancestors: Vec<&'a str>,
    pub title: &'a Option<String>,
    pub description: &'a Option<String>,
    pub extra: &'a tera::Map<String, tera::Value>,
    pub path: &'a str,
    pub components: &'a [String],
    pub toc: &'a [Heading],
    pub word_count: Option<usize>,
    pub reading_time: Option<usize>,
    pub lang: &'a str,
    pub assets: &'a [String],
    pub pages: Vec<SerializingPage<'a>>,
    pub subsections: Vec<&'a str>,
    pub translations: Vec<TranslatedContent<'a>>,
    pub includers: Vec<&'a str>,
}

/// The snapshots of a sequence of page views.
pub open spec fn page_views<'a>(v: Seq<SerializingPage<'a>>) -> Seq<PageSnapshot> {
    v.map_values(|p: SerializingPage<'a>| p@)
}

impl<'a> View for SerializingSection<'a> {
    type V = SectionSnapshot;

    open spec fn view(&self) -> SectionSnapshot {
        SectionSnapshot {
            relative_path: self.relative_path@,
            content: self.content@,
            permalink: self.permalink@,
            draft: self.draft,
            ancestors: str_views(self.ancestors@),
            title: *self.title,
            description: *self.description,
            extra: *self.extra,
            path: self.path@,
            components: self.components@,
            toc: self.toc@,
            word_count: self.word_count,
            reading_time: self.reading_time,
            lang: self.lang@,
            assets: self.assets@,
            pages: page_views(self.pages@),
            subsections: str_views(self.subsections@),
            translations: ref_views(self.translations@),
            includers: str_views(self.includers@),
        }
    }
}

/// The basic views, with the index, of the pages with the given keys.
fn child_page_views<'a>(keys: &Vec<usize>, library: &'a Library) -> (r: Vec<SerializingPage<'a>>)
    requires
        library.wf(),
        keys_below(keys@, library.pages@.len() as int),
    ensures
        page_views(r@) == child_pages(library, keys@),
{
    let mut pages: Vec<SerializingPage<'a>> = Vec::with_capacity(keys.len());
    let mut i: usize = 0;
    while i < keys.len()
        invariant
            0 <= i <= keys@.len(),
            library.wf(),
            keys_below(keys@, library.pages@.len() as int),
            page_views(pages@) =~= child_pages(library, keys@.take(i as int)),
        decreases keys@.len() - i,
    {
        let p = library.get_page_by_key(keys[i]);
        let v = SerializingPage::from_page_basic(p, Some(library));
        let ghost prev = pages@;
        let ghost vv = v@;
        pages.push(v);
        assert(page_views(pages@) =~= page_views(prev).push(vv));
        assert(keys@.take(i as int + 1) =~= keys@.take(i as int).push(keys@[i as int]));
        i = i + 1;
    }
    assert(keys@.take(keys@.len() as int) =~= keys@);
    pages
}

impl<'a> SerializingSection<'a> {
    /// The full view of a section: ancestors and translations resolved, child
    /// pages as basic page views, subsections and includers as paths.
    pub fn from_section(section: &'a Section, library: &'a Library) -> (r: Self)
        requires
            library.wf(),
            library.section_refs_valid(*section),
        ensures
            r@ == full_section(*section, library),
    {
        let pages = child_page_views(&section.pages, library);
        let subsections = section_paths(&section.subsections, library);
        let includers = section_paths(&section.includers, library);
        let ancestors = section_paths(&section.ancestors, library);
        let translations = TranslatedContent::find_all_sections(section, library);
        SerializingSection {
            relative_path: section.file.relative.as_str(),
            ancestors,
            draft: section.meta.draft,
            content: section.content.as_str(),
            permalink: section.permalink.as_str(),
            title: &section.meta.title,
            description: &section.meta.description,
            extra: &section.meta.extra,
            path: section.path.as_str(),
            components: section.components.as_slice(),
            toc: section.toc.as_slice(),
            word_count: section.word_count,
            reading_time: section.reading_time,
            assets: section.serialized_assets.as_slice(),
            lang: section.lang.as_str(),
            pages,
            subsections,
            translations,
            includers,
        }
    }

    /// Same as `from_section` but fetches no pages. Without an index it
    /// resolves nothing and makes no lookup.
    pub fn from_section_basic(section: &'a Section, library: Option<&'a Library>) -> (r: Self)
        requires
            library matches Some(l) ==> l.wf() && l.section_refs_valid(*section),
        ensures
            r@ == basic_section(*section, library),
    {
        let mut ancestors: Vec<&'a str> = Vec::new();
        let mut translations: Vec<TranslatedContent<'a>> = Vec::new();
        let mut subsections: Vec<&'a str> = Vec::new();
        let mut includers: Vec<&'a str> = Vec::new();
        if let Some(lib) = library {
            ancestors = section_paths(&section.ancestors, lib);
            translations = TranslatedContent::find_all_sections(section, lib);
            subsections = section_paths(&section.subsections, lib);
            includers = section_paths(&section.includers, lib);
        }
        let r = SerializingSection {
            relative_path: section.file.relative.as_str(),
            ancestors,
            draft: section.meta.draft,
            content: section.content.as_str(),
            permalink: section.permalink.as_str(),
            title: &section.meta.title,
            description: &section.meta.description,
            extra: &section.meta.extra,
            path: section.path.as_str(),
            components: section.components.as_slice(),
            toc: section.toc.as_slice(),
            word_count: section.word_count,
            reading_time: section.reading_time,
            assets: section.serialized_assets.as_slice(),
            lang: section.lang.as_str(),
            pages: Vec::new(),
            subsections,
            translations,
            includers,
        };
        proof {
            assert(page_views(r.pages@) =~= Seq::empty());
            if library is None {
                assert(str_views(r.ancestors@) =~= Seq::empty());
                assert(str_views(r.subsections@) =~= Seq::empty());
                assert(str_views(r.includers@) =~= Seq::empty());
                assert(ref_views(r.translations@) =~= Seq::empty());
            }
        }
        r
    }
}

} // verus!
