//! The layout tree that declarations are assembled into.
//!
//! A [`Document`] says what text there is and where a pretty printer may
//! break it; it does not choose the breaks. Its mathematical value is a
//! [`Layout`], and every contract in this crate that speaks of a document
//! speaks of that value.

use vstd::prelude::*;

verus! {

/// Columns added by one level of nesting.
pub const INDENT: usize = 2;

/// The mathematical value of a [`Document`]: a layout tree over sequences of
/// characters.
#[verifier::ext_equal]
pub enum Layout {
    /// That many line ends, followed by the current indentation.
    Line(nat),
    /// A place where the line may end: `broken` is written if it does,
    /// `unbroken` if it does not.
    Break { broken: Seq<char>, unbroken: Seq<char> },
    /// Literal text.
    Text(Seq<char>),
    /// The parts one after the other.
    Concat(Seq<Layout>),
    /// The inner layout, indented by that many more columns.
    Nest(nat, Box<Layout>),
    /// The inner layout, whose breaks are taken all together or not at all.
    Group(Box<Layout>),
}

impl Layout {
    /// The layout with no content.
    pub open spec fn nil() -> Layout {
        Layout::Concat(Seq::empty())
    }

    /// One line end.
    pub open spec fn line() -> Layout {
        Layout::Line(1)
    }

    /// A possible line end.
    pub open spec fn brk(broken: Seq<char>, unbroken: Seq<char>) -> Layout {
        Layout::Break { broken, unbroken }
    }

    /// `self` followed by `second`.
    pub open spec fn append(self, second: Layout) -> Layout {
        Layout::Concat(seq![self, second])
    }

    /// `self` between the texts `open` and `closed`.
    pub open spec fn surround(self, open: Seq<char>, closed: Seq<char>) -> Layout {
        Layout::Text(open).append(self).append(Layout::Text(closed))
    }

    /// `self`, indented by `columns` more.
    pub open spec fn nest(self, columns: nat) -> Layout {
        Layout::Nest(columns, Box::new(self))
    }

    /// `self` as one group.
    pub open spec fn group(self) -> Layout {
        Layout::Group(Box::new(self))
    }
}

/// `items` with `separator` between each two neighbours: nothing before the
/// first item and nothing after the last.
pub open spec fn interspersed<A>(items: Seq<A>, separator: A) -> Seq<A> {
    Seq::new(
        if items.len() == 0 {
            0
        } else {
            (2 * items.len() - 1) as nat
        },
        |i: int|
            if i % 2 == 0 {
                items[i / 2]
            } else {
                separator
            },
    )
}

/// A comma-separated list between `open` and `closed`, which a printer may
/// break after `open`, after each comma and before `closed`.
pub open spec fn enclosed(open: Seq<char>, items: Seq<Layout>, closed: Seq<char>) -> Layout {
    Layout::brk(""@, ""@).append(Layout::Concat(interspersed(items, Layout::brk(","@, ", "@)))).nest(
        INDENT as nat,
    ).append(Layout::brk(""@, ""@)).surround(open, closed).group()
}

/// A layout tree handed to a pretty printer.
#[derive(Debug, PartialEq, Eq)]
pub enum Document {
    /// That many line ends.
    Line(usize),
    /// A place where the line may end.
    Break { broken: String, unbroken: String },
    /// Literal text.
    Text(String),
    /// The parts one after the other.
    Concat(Vec<Document>),
    /// The inner document, indented by that many more columns.
    Nest(usize, Box<Document>),
    /// The inner document as one group.
    Group(Box<Document>),
}

/// The layout that a document stands for.
pub open spec fn layout_of(doc: &Document) -> Layout
    decreases doc,
{
    match doc {
        Document::Line(n) => Layout::Line(*n as nat),
        Document::Break { broken, unbroken } => Layout::Break {
            broken: broken@,
            unbroken: unbroken@,
        },
        Document::Text(s) => Layout::Text(s@),
        Document::Concat(docs) => Layout::Concat(
            Seq::new(
                docs@.len(),
                |i: int|
                    if 0 <= i < docs@.len() {
                        layout_of(&docs@[i])
                    } else {
                        Layout::nil()
                    },
            ),
        ),
        Document::Nest(n, inner) => Layout::Nest(*n as nat, Box::new(layout_of(inner))),
        Document::Group(inner) => Layout::Group(Box::new(layout_of(inner))),
    }
}

impl View for Document {
    type V = Layout;

    open spec fn view(&self) -> Layout {
        layout_of(self)
    }
}

/// The layouts of a sequence of documents, in order.
pub open spec fn layouts(docs: Seq<Document>) -> Seq<Layout> {
    Seq::new(docs.len(), |i: int| docs[i]@)
}

impl Clone for Document {
    #[verifier::loop_isolation(false)]
    fn clone(&self) -> (res: Self)
        ensures
            res@ == self@,
        decreases self,
    {
        match self {
            Document::Line(n) => Document::Line(*n),
            Document::Break { broken, unbroken } => Document::Break {
                broken: broken.clone(),
                unbroken: unbroken.clone(),
            },
            Document::Text(s) => Document::Text(s.clone()),
            Document::Concat(docs) => {
                let mut copies: Vec<Document> = Vec::new();
                let mut i: usize = 0;
                while i < docs.len()
                    invariant
                        i <= docs.len(),
                        copies.len() == i,
                        forall|j: int| 0 <= j < i ==> copies@[j]@ == docs@[j]@,
                    decreases docs.len() - i,
                {
                    let copy = docs[i].clone();
                    copies.push(copy);
                    i += 1;
                }
                let res = Document::Concat(copies);
                assert(layout_of(&res)->Concat_0 =~= layout_of(self)->Concat_0);
                res
            },
            Document::Nest(n, inner) => Document::Nest(*n, Box::new((&**inner).clone())),
            Document::Group(inner) => Document::Group(Box::new((&**inner).clone())),
        }
    }
}

impl Document {
    /// `self` followed by `second`.
    pub fn append(self, second: Document) -> (doc: Document)
        ensures
            doc@ == self@.append(second@),
    {
        let ghost first = self@;
        let ghost last = second@;
        let mut parts: Vec<Document> = Vec::new();
        parts.push(self);
        parts.push(second);
        let doc = Document::Concat(parts);
        assert(layout_of(&doc)->Concat_0 =~= seq![first, last]);
        doc
    }

    /// `self` between the texts `open` and `closed`.
    pub fn surround(self, open: &str, closed: &str) -> (doc: Document)
        ensures
            doc@ == self@.surround(open@, closed@),
    {
        text(open).append(self).append(text(closed))
    }

    /// `self`, indented by `columns` more.
    pub fn nest(self, columns: usize) -> (doc: Document)
        ensures
            doc@ == self@.nest(columns as nat),
    {
        Document::Nest(columns, Box::new(self))
    }

    /// `self` as one group.
    pub fn group(self) -> (doc: Document)
        ensures
            doc@ == self@.group(),
    {
        Document::Group(Box::new(self))
    }
}

/// The document with no content.
pub fn nil() -> (doc: Document)
    ensures
        doc@ == Layout::nil(),
{
    let doc = Document::Concat(Vec::new());
    assert(layout_of(&doc)->Concat_0 =~= Seq::empty());
    doc
}

/// One line end.
pub fn line() -> (doc: Document)
    ensures
        doc@ == Layout::line(),
{
    Document::Line(1)
}

/// `count` line ends.
pub fn lines(count: usize) -> (doc: Document)
    ensures
        doc@ == Layout::Line(count as nat),
{
    Document::Line(count)
}

/// A possible line end.
pub fn break_(broken: &str, unbroken: &str) -> (doc: Document)
    ensures
        doc@ == Layout::brk(broken@, unbroken@),
{
    Document::Break { broken: broken.to_owned(), unbroken: unbroken.to_owned() }
}

/// Literal text.
pub fn text(content: &str) -> (doc: Document)
    ensures
        doc@ == Layout::Text(content@),
{
    Document::Text(content.to_owned())
}

/// The documents one after the other.
pub fn concat(docs: Vec<Document>) -> (doc: Document)
    ensures
        doc@ == Layout::Concat(layouts(docs@)),
{
    let ghost parts = layouts(docs@);
    let doc = Document::Concat(docs);
    assert(layout_of(&doc)->Concat_0 =~= parts);
    doc
}

} // verus!
