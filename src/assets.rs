//! The static asset table: a fixed mapping from request path to content type
//! and payload, with a designated default document.

use vstd::prelude::*;
use crate::request::{first_match, lemma_first_match_at, lemma_first_match_none};

verus! {

/// One servable resource.
#[derive(Clone, Debug)]
pub struct AssetEntry {
    pub path: String,
    pub content_type: String,
    pub payload: Vec<u8>,
}

impl AssetEntry {
    pub open spec fn is(&self, path: Seq<char>, content_type: Seq<char>, payload: Seq<u8>) -> bool {
        self.path@ == path && self.content_type@ == content_type && self.payload@ == payload
    }

    pub fn new(path: String, content_type: String, payload: Vec<u8>) -> (r: AssetEntry)
        ensures
            r.path == path,
            r.content_type == content_type,
            r.payload == payload,
    {
        AssetEntry { path, content_type, payload }
    }
}

/// An entry keyed by exactly `path`.
pub open spec fn keyed(path: Seq<char>) -> spec_fn(AssetEntry) -> bool {
    |e: AssetEntry| e.path@ == path
}

/// The entry that serves `path`: the first one keyed by it, else the default.
pub open spec fn resolve_in(entries: Seq<AssetEntry>, fallback: AssetEntry, path: Seq<char>) -> AssetEntry {
    match first_match(entries, keyed(path)) {
        Some(e) => e,
        None => fallback,
    }
}

/// The asset table. It never changes once built.
pub struct AssetTable {
    entries: Vec<AssetEntry>,
    fallback: AssetEntry,
}

impl AssetTable {
    pub closed spec fn entries_view(&self) -> Seq<AssetEntry> {
        self.entries@
    }

    pub closed spec fn fallback_view(&self) -> AssetEntry {
        self.fallback
    }

    /// The entry that `resolve` gives for `path`.
    pub open spec fn resolve_spec(&self, path: Seq<char>) -> AssetEntry {
        resolve_in(self.entries_view(), self.fallback_view(), path)
    }

    /// Whether `path` is served by the default document.
    pub open spec fn is_default_spec(&self, path: Seq<char>) -> bool {
        first_match(self.entries_view(), keyed(path)) is None
    }

    /// A table of the given entries; any other path resolves to `fallback`.
    pub fn new(entries: Vec<AssetEntry>, fallback: AssetEntry) -> (r: AssetTable)
        ensures
            r.entries_view() == entries@,
            r.fallback_view() == fallback,
    {
        AssetTable { entries, fallback }
    }

    /// The table this router serves: script, style sheet, robots file, demo
    /// manifest and screenshot under their fixed paths, and the root document
    /// (`text/html`) for every other path.
    pub fn standard(
        script: Vec<u8>,
        style: Vec<u8>,
        robots: Vec<u8>,
        demo_manifest: Vec<u8>,
        screenshot: Vec<u8>,
        index: Vec<u8>,
    ) -> (r: AssetTable)
        ensures
            r.entries_view().len() == 5,
            r.entries_view()[0].is("/main.js"@, "application/javascript"@, script@),
            r.entries_view()[1].is("/main.css"@, "text/css"@, style@),
            r.entries_view()[2].is("/robots.txt"@, "text/plain"@, robots@),
            r.entries_view()[3].is("/.well-known/fastly/demo-manifest"@, "text/plain"@, demo_manifest@),
            r.entries_view()[4].is("/images/screenshot.png"@, "image/png"@, screenshot@),
            r.fallback_view().is("/"@, "text/html"@, index@),
    {
        let mut entries: Vec<AssetEntry> = Vec::new();
        entries.push(AssetEntry::new("/main.js".to_owned(), "application/javascript".to_owned(), script));
        entries.push(AssetEntry::new("/main.css".to_owned(), "text/css".to_owned(), style));
        entries.push(AssetEntry::new("/robots.txt".to_owned(), "text/plain".to_owned(), robots));
        entries.push(
            AssetEntry::new(
                "/.well-known/fastly/demo-manifest".to_owned(),
                "text/plain".to_owned(),
                demo_manifest,
            ),
        );
        entries.push(AssetEntry::new("/images/screenshot.png".to_owned(), "image/png".to_owned(), screenshot));
        let fallback = AssetEntry::new("/".to_owned(), "text/html".to_owned(), index);
        AssetTable { entries, fallback }
    }

    /// The first entry keyed by exactly `path`, without the default.
    pub fn lookup(&self, path: &str) -> (r: Option<&AssetEntry>)
        ensures
            match r {
                Some(e) => first_match(self.entries_view(), keyed(path@)) == Some(*e),
                None => self.is_default_spec(path@),
            },
    {
        let ghost p = keyed(path@);
        let key = path.to_owned();
        let mut i: usize = 0;
        while i < self.entries.len()
            invariant
                p == keyed(path@),
                key@ == path@,
                i <= self.entries@.len(),
                forall|j: int| 0 <= j < i ==> !p(#[trigger] self.entries@[j]),
            decreases self.entries@.len() - i,
        {
            if self.entries[i].path == key {
                proof {
                    assert(p(self.entries@[i as int]));
                    lemma_first_match_at(self.entries@, p, i as int);
                }
                return Some(&self.entries[i]);
            }
            i = i + 1;
        }
        proof {
            lemma_first_match_none(self.entries@, p);
        }
        None
    }

    /// The entry that serves `path`; unknown paths get the default document.
    pub fn resolve(&self, path: &str) -> (r: &AssetEntry)
        ensures
            *r == self.resolve_spec(path@),
    {
        match self.lookup(path) {
            Some(e) => e,
            None => &self.fallback,
        }
    }

    /// The default document.
    pub fn fallback(&self) -> (r: &AssetEntry)
        ensures
            *r == self.fallback_view(),
    {
        &self.fallback
    }
}

} // verus!
