//! Laws of the projections, stated over the models that the projectors'
//! contracts use.
use vstd::prelude::*;

use crate::content::{Page, Section};
use crate::index::Library;
use crate::ser::{basic_page, full_page};

verus! {

/// A page with no navigation pointer projects at full fidelity exactly as it
/// does at basic fidelity with the index, every navigation slot empty.
pub proof fn lemma_full_page_without_nav(p: Page, lib: &Library)
    requires
        p.has_no_nav(),
    ensures
        full_page(p, lib) == basic_page(p, Some(lib)),
        full_page(p, lib).has_no_nav(),
{
    assert(p.nav_keys()[0] is None);
    assert(p.nav_keys()[1] is None);
    assert(p.nav_keys()[2] is None);
    assert(p.nav_keys()[3] is None);
    assert(p.nav_keys()[4] is None);
    assert(p.nav_keys()[5] is None);
    assert(p.nav_keys()[6] is None);
    assert(p.nav_keys()[7] is None);
    let f = full_page(p, lib);
    assert(f.nav_slots() =~= seq![None, None, None, None, None, None, None, None]);
}

/// The view in a navigation slot whose pointer names page `k` is the basic
/// view of that page with the index, and has no navigation of its own: the
/// nesting is exactly one level deep.
pub proof fn lemma_nav_depth_one(p: Page, lib: &Library, i: int, k: usize)
    requires
        0 <= i < 8,
        p.nav_keys()[i] == Some(k),
    ensures
        full_page(p, lib).nav_slots()[i] == Some(Box::new(basic_page(lib.pages@[k as int], Some(lib)))),
        basic_page(lib.pages@[k as int], Some(lib)).has_no_nav(),
{
    let b = basic_page(lib.pages@[k as int], Some(lib));
    assert(b.nav_slots() =~= seq![None, None, None, None, None, None, None, None]);
}

/// No translation reference of a page carries the page's own source path.
pub proof fn lemma_page_translations_exclude_self(lib: &Library, p: Page)
    ensures
        forall|i: int|
            0 <= i < lib.page_translation_refs(p).len()
                ==> #[trigger] lib.page_translation_refs(p)[i].path != p.file.path@,
{
    let keys = lib.page_translation_keys(p);
    assert forall|i: int| 0 <= i < lib.page_translation_refs(p).len() implies
        #[trigger] lib.page_translation_refs(p)[i].path != p.file.path@ by {
        lib.page_group(p.file.canonical@).lemma_filter_pred(lib.other_page(p), i);
    }
}

/// No translation reference of a section carries the section's own source
/// path.
pub proof fn lemma_section_translations_exclude_self(lib: &Library, s: Section)
    ensures
        forall|i: int|
            0 <= i < lib.section_translation_refs(s).len()
                ==> #[trigger] lib.section_translation_refs(s)[i].path != s.file.path@,
{
    assert forall|i: int| 0 <= i < lib.section_translation_refs(s).len() implies
        #[trigger] lib.section_translation_refs(s)[i].path != s.file.path@ by {
        lib.section_group(s.file.canonical@).lemma_filter_pred(lib.other_section(s), i);
    }
}

/// Filtering out of a duplicate-free sequence exactly one of its members
/// drops one entry and keeps the rest free of duplicates.
proof fn lemma_filter_out_one(s: Seq<usize>, pred: spec_fn(usize) -> bool, x: usize)
    requires
        s.no_duplicates(),
        s.contains(x),
        forall|j: int| 0 <= j < s.len() ==> (pred(#[trigger] s[j]) <==> s[j] != x),
    ensures
        s.filter(pred).len() == s.len() - 1,
        s.filter(pred).no_duplicates(),
    decreases s.len(),
{
    reveal(Seq::filter);
    let sub = s.drop_last();
    let l = s.last();
    if l == x {
        assert(!sub.contains(x)) by {
            if sub.contains(x) {
                let j = choose|j: int| 0 <= j < sub.len() && sub[j] == x;
                assert(s[j] == s[s.len() - 1]);
            }
        }
        lemma_filter_keeps_all(sub, pred);
    } else {
        let j = choose|j: int| 0 <= j < s.len() && s[j] == x;
        assert(sub[j] == x);
        lemma_filter_out_one(sub, pred, x);
        assert(pred(s[s.len() - 1]));
        assert(!sub.filter(pred).contains(l)) by {
            if sub.filter(pred).contains(l) {
                sub.lemma_filter_contains_rev(pred, l);
                let m = choose|m: int| 0 <= m < sub.len() && sub[m] == l;
                assert(s[m] == s[s.len() - 1]);
            }
        }
    }
}

/// A filter that every member passes keeps the sequence as it is.
proof fn lemma_filter_keeps_all(s: Seq<usize>, pred: spec_fn(usize) -> bool)
    requires
        forall|j: int| 0 <= j < s.len() ==> pred(#[trigger] s[j]),
    ensures
        s.filter(pred) == s,
    decreases s.len(),
{
    reveal(Seq::filter);
    if s.len() > 0 {
        let sub = s.drop_last();
        assert forall|j: int| 0 <= j < sub.len() implies pred(#[trigger] sub[j]) by {
            assert(sub[j] == s[j]);
        }
        lemma_filter_keeps_all(sub, pred);
        assert(sub.push(s.last()) =~= s);
    }
}

/// Pages of distinct keys in a group have distinct source paths.
pub open spec fn group_paths_distinct(lib: &Library, g: Seq<usize>) -> bool {
    forall|i: int, j: int|
        0 <= i < g.len() && 0 <= j < g.len() && g[i] != g[j]
            ==> lib.pages@[g[i] as int].file.path@ != lib.pages@[g[j] as int].file.path@
}

/// Sections of distinct keys in a group have distinct source paths.
pub open spec fn section_group_paths_distinct(lib: &Library, g: Seq<usize>) -> bool {
    forall|i: int, j: int|
        0 <= i < g.len() && 0 <= j < g.len() && g[i] != g[j]
            ==> lib.sections@[g[i] as int].file.path@ != lib.sections@[g[j] as int].file.path@
}

/// For page `k` in a translation group of N distinct keys, its translations
/// are N - 1 references, one for each other key, none repeated.
pub proof fn lemma_page_translations_count(lib: &Library, k: usize)
    requires
        k < lib.pages@.len(),
        lib.page_group(lib.pages@[k as int].file.canonical@).no_duplicates(),
        lib.page_group(lib.pages@[k as int].file.canonical@).contains(k),
        group_paths_distinct(lib, lib.page_group(lib.pages@[k as int].file.canonical@)),
    ensures
        lib.page_translation_keys(lib.pages@[k as int]).len()
            == lib.page_group(lib.pages@[k as int].file.canonical@).len() - 1,
        lib.page_translation_keys(lib.pages@[k as int]).no_duplicates(),
        lib.page_translation_refs(lib.pages@[k as int]).len()
            == lib.page_translation_keys(lib.pages@[k as int]).len(),
{
    let p = lib.pages@[k as int];
    let g = lib.page_group(p.file.canonical@);
    let pred = lib.other_page(p);
    let m = choose|m: int| 0 <= m < g.len() && g[m] == k;
    assert forall|j: int| 0 <= j < g.len() implies (pred(#[trigger] g[j]) <==> g[j] != k) by {
        if g[j] != k {
            assert(lib.pages@[g[j] as int].file.path@ != lib.pages@[g[m] as int].file.path@);
        }
    }
    lemma_filter_out_one(g, pred, k);
}

/// For section `k` in a translation group of N distinct keys, its
/// translations are N - 1 references, one for each other key, none repeated.
pub proof fn lemma_section_translations_count(lib: &Library, k: usize)
    requires
        k < lib.sections@.len(),
        lib.section_group(lib.sections@[k as int].file.canonical@).no_duplicates(),
        lib.section_group(lib.sections@[k as int].file.canonical@).contains(k),
        section_group_paths_distinct(lib, lib.section_group(lib.sections@[k as int].file.canonical@)),
    ensures
        lib.section_translation_keys(lib.sections@[k as int]).len()
            == lib.section_group(lib.sections@[k as int].file.canonical@).len() - 1,
        lib.section_translation_keys(lib.sections@[k as int]).no_duplicates(),
        lib.section_translation_refs(lib.sections@[k as int]).len()
            == lib.section_translation_keys(lib.sections@[k as int]).len(),
{
    let s = lib.sections@[k as int];
    let g = lib.section_group(s.file.canonical@);
    let pred = lib.other_section(s);
    let m = choose|m: int| 0 <= m < g.len() && g[m] == k;
    assert forall|j: int| 0 <= j < g.len() implies (pred(#[trigger] g[j]) <==> g[j] != k) by {
        if g[j] != k {
            assert(lib.sections@[g[j] as int].file.path@ != lib.sections@[g[m] as int].file.path@);
        }
    }
    lemma_filter_out_one(g, pred, k);
}

} // verus!
