//! The text of a document on a line that is never too long.
//!
//! Where a line is long enough, a pretty printer takes none of the possible
//! breaks. What is then written follows from the document alone.

use crate::document::{Document, Layout};
use crate::text::{repeat, repeated};
use vstd::prelude::*;
use vstd::string::StringExecFns;

verus! {

/// `parts` written one after the other.
pub open spec fn concatenated(parts: Seq<Seq<char>>) -> Seq<char>
    decreases parts.len(),
{
    if parts.len() == 0 {
        Seq::empty()
    } else {
        concatenated(parts.drop_last()) + parts.last()
    }
}

/// The text of `layout` where no possible break is taken, written at an
/// indentation of `indent` columns. A line end is followed by the
/// indentation.
pub open spec fn unbroken(layout: Layout, indent: nat) -> Seq<char>
    decreases layout,
{
    match layout {
        Layout::Line(count) => repeated("\n"@, count) + repeated(" "@, indent),
        Layout::Break { unbroken: text, .. } => text,
        Layout::Text(text) => text,
        Layout::Concat(parts) => concatenated(unbroken_each(parts, indent)),
        Layout::Nest(columns, inner) => unbroken(*inner, indent + columns),
        Layout::Group(inner) => unbroken(*inner, indent),
    }
}

/// The unbroken text of each of `parts`.
pub open spec fn unbroken_each(parts: Seq<Layout>, indent: nat) -> Seq<Seq<char>>
    decreases parts,
{
    Seq::new(
        parts.len(),
        |i: int|
            if 0 <= i < parts.len() {
                unbroken(parts[i], indent)
            } else {
                Seq::empty()
            },
    )
}

proof fn lemma_repeated_join(unit: Seq<char>, first: nat, second: nat)
    ensures
        repeated(unit, first) + repeated(unit, second) == repeated(unit, first + second),
    decreases second,
{
    if second == 0 {
        assert(repeated(unit, first) + repeated(unit, second) =~= repeated(unit, first));
    } else {
        lemma_repeated_join(unit, first, (second - 1) as nat);
        assert(repeated(unit, first) + repeated(unit, second) =~= (repeated(unit, first)
            + repeated(unit, (second - 1) as nat)) + unit);
    }
}

proof fn lemma_spaces_len(count: nat)
    ensures
        repeated(" "@, count).len() == count,
    decreases count,
{
    reveal_strlit(" ");
    if count > 0 {
        lemma_spaces_len((count - 1) as nat);
    }
}

impl Document {
    /// The text of the document where no possible break is taken.
    pub fn unbroken_text(&self) -> (text: String)
        ensures
            text@ == unbroken(self@, 0),
    {
        let mut text = String::new();
        let indent = String::new();
        self.write_unbroken(indent.as_str(), &mut text);
        assert(text@ =~= unbroken(self@, 0));
        text
    }

    #[verifier::loop_isolation(false)]
    fn write_unbroken(&self, indent: &str, out: &mut String)
        requires
            indent@ == repeated(" "@, indent@.len()),
        ensures
            final(out)@ == old(out)@ + unbroken(self@, indent@.len()),
        decreases self,
    {
        match self {
            Document::Line(count) => {
                out.append(repeat("\n", *count).as_str());
                out.append(indent);
                assert(out@ =~= old(out)@ + unbroken(self@, indent@.len()));
            },
            Document::Break { unbroken: text, .. } => {
                out.append(text.as_str());
            },
            Document::Text(text) => {
                out.append(text.as_str());
            },
            Document::Concat(docs) => {
                let ghost parts = unbroken_each(self@->Concat_0, indent@.len());
                let mut i: usize = 0;
                assert(out@ =~= old(out)@ + concatenated(parts.take(0)));
                while i < docs.len()
                    invariant
                        i <= docs.len(),
                        parts.len() == docs.len(),
                        out@ == old(out)@ + concatenated(parts.take(i as int)),
                    decreases docs.len() - i,
                {
                    docs[i].write_unbroken(indent, out);
                    proof {
                        assert(parts.take(i + 1).drop_last() =~= parts.take(i as int));
                        assert(parts.take(i + 1).last() == unbroken(docs@[i as int]@, indent@.len()));
                        assert(out@ =~= old(out)@ + concatenated(parts.take(i + 1)));
                    }
                    i += 1;
                }
                assert(parts.take(docs.len() as int) =~= parts);
            },
            Document::Nest(columns, inner) => {
                let mut deeper = indent.to_owned();
                deeper.append(repeat(" ", *columns).as_str());
                proof {
                    lemma_repeated_join(" "@, indent@.len(), *columns as nat);
                    lemma_spaces_len(indent@.len() + *columns as nat);
                }
                inner.write_unbroken(deeper.as_str(), out);
            },
            Document::Group(inner) => {
                inner.write_unbroken(indent, out);
            },
        }
    }
}

} // verus!
