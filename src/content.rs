//! The content records that the index owns: pages, sections and their parts.
use std::collections::HashMap;

use vstd::prelude::*;

verus! {

/// Free-form key/value extras of a page or a section, as the template engine
/// holds them. Only carried through, never read.
#[verifier::external_type_specification]
#[verifier::external_body]
#[verifier::reject_recursive_types(K)]
#[verifier::reject_recursive_types(V)]
pub struct ExTeraMap<K, V>(tera::Map<K, V>);

/// A value of the template engine's data model.
#[verifier::external_type_specification]
#[verifier::external_body]
pub struct ExTeraValue(tera::Value);

/// One entry of a table of contents, with its nested entries.
#[derive(Debug, PartialEq)]
pub struct Heading {
    pub level: u32,
    pub id: String,
    pub permalink: String,
    pub title: String,
    pub children: Vec<Heading>,
}

/// Where a page or a section comes from on disk.
#[derive(Clone, Debug, PartialEq)]
pub struct FileInfo {
    /// Full source path of the file.
    pub path: String,
    /// Path relative to the content directory.
    pub relative: String,
    /// Language-independent identity, shared by all translations of one file.
    pub canonical: String,
}

/// The front matter of a page.
#[derive(Debug, PartialEq)]
pub struct PageFrontMatter {
    pub title: Option<String>,
    pub description: Option<String>,
    pub updated: Option<String>,
    pub date: Option<String>,
    /// The stored date split into (year, month, day), when there is a date.
    pub datetime_tuple: Option<(i32, u32, u32)>,
    pub draft: bool,
    pub taxonomies: HashMap<String, Vec<String>>,
    pub extra: tera::Map<String, tera::Value>,
}

/// The front matter of a section.
#[derive(Debug, PartialEq)]
pub struct SectionFrontMatter {
    pub title: Option<String>,
    pub description: Option<String>,
    pub draft: bool,
    pub extra: tera::Map<String, tera::Value>,
}

/// A page of the content graph. Keys (`usize`) refer to the pages and
/// sections of the index that holds it.
#[derive(Debug, PartialEq)]
pub struct Page {
    pub file: FileInfo,
    pub meta: PageFrontMatter,
    pub lang: String,
    pub permalink: String,
    pub slug: String,
    pub path: String,
    pub content: String,
    pub summary: Option<String>,
    pub toc: Vec<Heading>,
    pub word_count: Option<usize>,
    pub reading_time: Option<usize>,
    pub components: Vec<String>,
    pub serialized_assets: Vec<String>,
    /// Keys of the sections above this page, outermost first.
    pub ancestors: Vec<usize>,
    pub lighter: Option<usize>,
    pub heavier: Option<usize>,
    pub earlier_updated: Option<usize>,
    pub later_updated: Option<usize>,
    pub earlier: Option<usize>,
    pub later: Option<usize>,
    pub title_prev: Option<usize>,
    pub title_next: Option<usize>,
}

/// A section of the content graph.
#[derive(Debug, PartialEq)]
pub struct Section {
    pub file: FileInfo,
    pub meta: SectionFrontMatter,
    pub lang: String,
    pub permalink: String,
    pub path: String,
    pub content: String,
    pub toc: Vec<Heading>,
    pub word_count: Option<usize>,
    pub reading_time: Option<usize>,
    pub components: Vec<String>,
    pub serialized_assets: Vec<String>,
    /// Keys of the pages directly in this section.
    pub pages: Vec<usize>,
    /// Keys of the sections directly below this one.
    pub subsections: Vec<usize>,
    /// Keys of the sections that transclude this one.
    pub includers: Vec<usize>,
    /// Keys of the sections above this one, outermost first.
    pub ancestors: Vec<usize>,
}

impl Page {
    /// Every navigation pointer of the page.
    pub open spec fn nav_keys(&self) -> Seq<Option<usize>> {
        seq![
            self.lighter,
            self.heavier,
            self.earlier_updated,
            self.later_updated,
            self.earlier,
            self.later,
            self.title_prev,
            self.title_next,
        ]
    }

    /// No navigation pointer of the page is set.
    pub open spec fn has_no_nav(&self) -> bool {
        forall|i: int| 0 <= i < 8 ==> self.nav_keys()[i] is None
    }
}

} // verus!
