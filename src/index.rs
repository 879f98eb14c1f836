//! The content index: the store of pages and sections, keyed by position,
//! with the translation groups of each namespace.
use vstd::prelude::*;

use crate::content::{Page, Section};

verus! {

/// Keys of the entities that share one canonical identity across languages.
#[derive(Clone, Debug, PartialEq)]
pub struct TranslationGroup {
    pub canonical: String,
    pub keys: Vec<usize>,
}

/// Read-only store of every page and section. A key is a position in
/// `pages` or `sections`.
#[derive(Debug, PartialEq)]
pub struct Library {
    pub pages: Vec<Page>,
    pub sections: Vec<Section>,
    /// Translation groups over page keys.
    pub page_translations: Vec<TranslationGroup>,
    /// Translation groups over section keys.
    pub section_translations: Vec<TranslationGroup>,
}

/// The keys of the first group in `groups` whose canonical identity is `c`;
/// empty when there is none.
pub open spec fn group_keys(groups: Seq<TranslationGroup>, c: Seq<char>) -> Seq<usize>
    decreases groups.len(),
{
    if groups.len() == 0 {
        Seq::empty()
    } else if groups[0].canonical@ == c {
        groups[0].keys@
    } else {
        group_keys(groups.drop_first(), c)
    }
}

/// Every key in `keys` is below `n`.
pub open spec fn keys_below(keys: Seq<usize>, n: int) -> bool {
    forall|i: int| 0 <= i < keys.len() ==> (#[trigger] keys[i]) < n
}

/// Every key that a group of `groups` holds is below `n`.
pub open spec fn groups_below(groups: Seq<TranslationGroup>, n: int) -> bool {
    forall|g: int| 0 <= g < groups.len() ==> keys_below((#[trigger] groups[g]).keys@, n)
}

pub open spec fn opt_key_below(k: Option<usize>, n: int) -> bool {
    match k {
        Some(k) => k < n,
        None => true,
    }
}

impl Library {
    /// Every stored reference of the page resolves in this index.
    pub open spec fn page_refs_valid(&self, p: Page) -> bool {
        &&& keys_below(p.ancestors@, self.sections@.len() as int)
        &&& forall|i: int|
            0 <= i < 8 ==> opt_key_below(#[trigger] p.nav_keys()[i], self.pages@.len() as int)
    }

    /// Every stored reference of the section resolves in this index.
    pub open spec fn section_refs_valid(&self, s: Section) -> bool {
        &&& keys_below(s.pages@, self.pages@.len() as int)
        &&& keys_below(s.subsections@, self.sections@.len() as int)
        &&& keys_below(s.includers@, self.sections@.len() as int)
        &&& keys_below(s.ancestors@, self.sections@.len() as int)
    }

    /// Referential integrity: every key stored anywhere in the index names an
    /// entity of the index.
    pub open spec fn wf(&self) -> bool {
        &&& forall|k: int| 0 <= k < self.pages@.len() ==> self.page_refs_valid(#[trigger] self.pages@[k])
        &&& forall|k: int|
            0 <= k < self.sections@.len() ==> self.section_refs_valid(#[trigger] self.sections@[k])
        &&& groups_below(self.page_translations@, self.pages@.len() as int)
        &&& groups_below(self.section_translations@, self.sections@.len() as int)
    }

    /// The page translation group of canonical identity `c`.
    pub open spec fn page_group(&self, c: Seq<char>) -> Seq<usize> {
        group_keys(self.page_translations@, c)
    }

    /// The section translation group of canonical identity `c`.
    pub open spec fn section_group(&self, c: Seq<char>) -> Seq<usize> {
        group_keys(self.section_translations@, c)
    }

    pub fn get_page_by_key(&self, key: usize) -> (r: &Page)
        requires
            key < self.pages@.len(),
        ensures
            *r == self.pages@[key as int],
    {
        &self.pages[key]
    }

    pub fn get_section_by_key(&self, key: usize) -> (r: &Section)
        requires
            key < self.sections@.len(),
        ensures
            *r == self.sections@[key as int],
    {
        &self.sections[key]
    }

    /// The relative path of a section, for references that need no more.
    pub fn get_section_path_by_key(&self, key: usize) -> (r: &str)
        requires
            key < self.sections@.len(),
        ensures
            r@ == self.sections@[key as int].file.relative@,
    {
        self.sections[key].file.relative.as_str()
    }

    /// The keys of the page translation group of `canonical`; empty when no
    /// group has that identity.
    pub fn get_page_translations(&self, canonical: &String) -> (r: &[usize])
        ensures
            r@ == self.page_group(canonical@),
    {
        find_group(&self.page_translations, canonical)
    }

    /// The keys of the section translation group of `canonical`; empty when no
    /// group has that identity.
    pub fn get_section_translations(&self, canonical: &String) -> (r: &[usize])
        ensures
            r@ == self.section_group(canonical@),
    {
        find_group(&self.section_translations, canonical)
    }
}

proof fn lemma_group_keys_skip(groups: Seq<TranslationGroup>, c: Seq<char>, i: int)
    requires
        0 <= i < groups.len(),
        groups[i].canonical@ != c,
    ensures
        group_keys(groups.subrange(i, groups.len() as int), c)
            == group_keys(groups.subrange(i + 1, groups.len() as int), c),
{
    assert(groups.subrange(i, groups.len() as int).drop_first()
        =~= groups.subrange(i + 1, groups.len() as int));
}

/// Every member of a group that `group_keys` finds is below `n` when all
/// groups are.
pub proof fn lemma_group_member_below(
    groups: Seq<TranslationGroup>,
    c: Seq<char>,
    n: int,
    i: int,
)
    requires
        groups_below(groups, n),
        0 <= i < group_keys(groups, c).len(),
    ensures
        group_keys(groups, c)[i] < n,
    decreases groups.len(),
{
    if groups.len() > 0 && groups[0].canonical@ != c {
        assert forall|g: int| 0 <= g < groups.drop_first().len() implies keys_below(
            (#[trigger] groups.drop_first()[g]).keys@, n) by {
            assert(groups.drop_first()[g] == groups[g + 1]);
        }
        lemma_group_member_below(groups.drop_first(), c, n, i);
    } else if groups.len() > 0 {
        assert(keys_below(groups[0].keys@, n));
    }
}

fn find_group<'a>(groups: &'a Vec<TranslationGroup>, canonical: &String) -> (r: &'a [usize])
    ensures
        r@ == group_keys(groups@, canonical@),
{
    let mut i: usize = 0;
    assert(groups@.subrange(0, groups@.len() as int) =~= groups@);
    while i < groups.len()
        invariant
            0 <= i <= groups@.len(),
            group_keys(groups@.subrange(i as int, groups@.len() as int), canonical@)
                == group_keys(groups@, canonical@),
        decreases groups@.len() - i,
    {
        if groups[i].canonical == *canonical {
            return groups[i].keys.as_slice();
        }
        proof {
            lemma_group_keys_skip(groups@, canonical@, i as int);
        }
        i = i + 1;
    }
    &[]
}

/// Tells whether every key of `keys` is below `n`.
fn all_below(keys: &Vec<usize>, n: usize) -> (r: bool)
    ensures
        r == keys_below(keys@, n as int),
{
    let mut i: usize = 0;
    while i < keys.len()
        invariant
            0 <= i <= keys@.len(),
            forall|j: int| 0 <= j < i ==> (#[trigger] keys@[j]) < n,
        decreases keys@.len() - i,
    {
        if keys[i] >= n {
            return false;
        }
        i = i + 1;
    }
    true
}

/// Tells whether every group of `groups` holds only keys below `n`.
fn groups_all_below(groups: &Vec<TranslationGroup>, n: usize) -> (r: bool)
    ensures
        r == groups_below(groups@, n as int),
{
    let mut i: usize = 0;
    while i < groups.len()
        invariant
            0 <= i <= groups@.len(),
            forall|j: int| 0 <= j < i ==> keys_below((#[trigger] groups@[j]).keys@, n as int),
        decreases groups@.len() - i,
    {
        if !all_below(&groups[i].keys, n) {
            return false;
        }
        i = i + 1;
    }
    true
}

fn opt_below(k: Option<usize>, n: usize) -> (r: bool)
    ensures
        r == opt_key_below(k, n as int),
{
    match k {
        Some(k) => k < n,
        None => true,
    }
}

impl Library {
    /// Tells whether every reference of page `p` resolves in this index.
    pub fn check_page_refs(&self, p: &Page) -> (r: bool)
        ensures
            r == self.page_refs_valid(*p),
    {
        let n = self.pages.len();
        let nav = opt_below(p.lighter, n) && opt_below(p.heavier, n) && opt_below(
            p.earlier_updated,
            n,
        ) && opt_below(p.later_updated, n) && opt_below(p.earlier, n) && opt_below(p.later, n)
            && opt_below(p.title_prev, n) && opt_below(p.title_next, n);
        proof {
            assert(p.nav_keys() =~= seq![
                p.lighter,
                p.heavier,
                p.earlier_updated,
                p.later_updated,
                p.earlier,
                p.later,
                p.title_prev,
                p.title_next,
            ]);
        }
        nav && all_below(&p.ancestors, self.sections.len())
    }

    /// Tells whether every reference of section `s` resolves in this index.
    pub fn check_section_refs(&self, s: &Section) -> (r: bool)
        ensures
            r == self.section_refs_valid(*s),
    {
        let np = self.pages.len();
        let ns = self.sections.len();
        all_below(&s.pages, np) && all_below(&s.subsections, ns) && all_below(&s.includers, ns)
            && all_below(&s.ancestors, ns)
    }

    /// Tells whether the index has referential integrity (`wf`).
    pub fn check_integrity(&self) -> (r: bool)
        ensures
            r == self.wf(),
    {
        let mut i: usize = 0;
        while i < self.pages.len()
            invariant
                0 <= i <= self.pages@.len(),
                forall|k: int| 0 <= k < i ==> self.page_refs_valid(#[trigger] self.pages@[k]),
            decreases self.pages@.len() - i,
        {
            if !self.check_page_refs(&self.pages[i]) {
                return false;
            }
            i = i + 1;
        }
        let mut j: usize = 0;
        while j < self.sections.len()
            invariant
                0 <= j <= self.sections@.len(),
                forall|k: int| 0 <= k < self.pages@.len() ==> self.page_refs_valid(#[trigger] self.pages@[k]),
                forall|k: int| 0 <= k < j ==> self.section_refs_valid(#[trigger] self.sections@[k]),
            decreases self.sections@.len() - j,
        {
            if !self.check_section_refs(&self.sections[j]) {
                return false;
            }
            j = j + 1;
        }
        groups_all_below(&self.page_translations, self.pages.len())
            && groups_all_below(&self.section_translations, self.sections.len())
    }
}

} // verus!
