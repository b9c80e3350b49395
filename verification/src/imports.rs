//! The namespace imports at the head of a declaration file.

use crate::document::{concat, layouts, line, text, Document, Layout};
use crate::text::same_text;
use vstd::prelude::*;

verus! {

/// One namespace import: the file at `path`, reached under `alias`.
#[derive(Debug, PartialEq, Eq)]
pub struct Import {
    pub path: String,
    pub alias: String,
}

impl View for Import {
    type V = (Seq<char>, Seq<char>);

    open spec fn view(&self) -> (Seq<char>, Seq<char>) {
        (self.path@, self.alias@)
    }
}

/// `entries` after the import of `path` under `alias` was registered: it is
/// added behind the others, unless it is there.
pub open spec fn registered(
    entries: Seq<(Seq<char>, Seq<char>)>,
    path: Seq<char>,
    alias: Seq<char>,
) -> Seq<(Seq<char>, Seq<char>)> {
    if entries.contains((path, alias)) {
        entries
    } else {
        entries.push((path, alias))
    }
}

/// The line that imports the file at `path` under `alias`.
pub open spec fn import_layout(path: Seq<char>, alias: Seq<char>) -> Layout {
    Layout::Concat(
        seq![
            Layout::Text("import * as "@),
            Layout::Text(alias),
            Layout::Text(" from \""@),
            Layout::Text(path),
            Layout::Text("\";"@),
            Layout::line(),
        ],
    )
}

/// The lines that import `entries`, in their order.
pub open spec fn imports_layout(entries: Seq<(Seq<char>, Seq<char>)>) -> Layout {
    Layout::Concat(Seq::new(entries.len(), |i: int| import_layout(entries[i].0, entries[i].1)))
}

/// The imports of one declaration file, in the order in which they were
/// first registered. None is held twice.
#[derive(Debug)]
pub struct Imports {
    entries: Vec<Import>,
}

impl View for Imports {
    type V = Seq<(Seq<char>, Seq<char>)>;

    closed spec fn view(&self) -> Seq<(Seq<char>, Seq<char>)> {
        Seq::new(self.entries@.len(), |i: int| self.entries@[i]@)
    }
}

impl Imports {
    /// No imports.
    pub fn new() -> (imports: Self)
        ensures
            imports@ == Seq::<(Seq<char>, Seq<char>)>::empty(),
    {
        let imports = Imports { entries: Vec::new() };
        assert(imports@ =~= Seq::empty());
        imports
    }

    /// Registers the import of the file at `path` under `alias`. An import
    /// that was registered before is not registered again.
    pub fn register_module(&mut self, path: String, alias: String)
        ensures
            final(self)@ == registered(old(self)@, path@, alias@),
            old(self)@.no_duplicates() ==> final(self)@.no_duplicates(),
    {
        let mut i: usize = 0;
        while i < self.entries.len()
            invariant
                i <= self.entries.len(),
                self.entries == old(self).entries,
                forall|j: int| 0 <= j < i ==> (#[trigger] self@[j]) != (path@, alias@),
            decreases self.entries.len() - i,
        {
            let entry = &self.entries[i];
            if same_text(entry.path.as_str(), path.as_str()) && same_text(
                entry.alias.as_str(),
                alias.as_str(),
            ) {
                assert(self@[i as int] == (path@, alias@));
                return ;
            }
            i += 1;
        }
        self.entries.push(Import { path, alias });
        assert(self@ =~= old(self)@.push((path@, alias@)));
    }

    /// Whether no import was registered.
    pub fn is_empty(&self) -> (empty: bool)
        ensures
            empty == (self@.len() == 0),
    {
        self.entries.len() == 0
    }

    /// The lines that import what was registered.
    pub fn into_doc(self) -> (doc: Document)
        ensures
            doc@ == imports_layout(self@),
    {
        let mut lines: Vec<Document> = Vec::new();
        let mut i: usize = 0;
        while i < self.entries.len()
            invariant
                i <= self.entries.len(),
                lines.len() == i,
                forall|j: int|
                    0 <= j < i ==> (#[trigger] lines@[j])@ == import_layout(self@[j].0, self@[j].1),
            decreases self.entries.len() - i,
        {
            let entry = &self.entries[i];
            let ghost parts = seq![
                Layout::Text("import * as "@),
                Layout::Text(entry.alias@),
                Layout::Text(" from \""@),
                Layout::Text(entry.path@),
                Layout::Text("\";"@),
                Layout::line(),
            ];
            let docs = vec![
                text("import * as "),
                text(entry.alias.as_str()),
                text(" from \""),
                text(entry.path.as_str()),
                text("\";"),
                line(),
            ];
            assert(layouts(docs@) =~= parts);
            lines.push(concat(docs));
            i += 1;
        }
        assert(layouts(lines@) =~= Seq::new(
            self@.len(),
            |i: int| import_layout(self@[i].0, self@[i].1),
        ));
        concat(lines)
    }
}

} // verus!
