//! Bracketed, comma-separated lists.

use crate::document::{break_, concat, enclosed, layouts, Document, Layout, INDENT};
use crate::joining::intersperse;
use vstd::prelude::*;

verus! {

/// The layout of a tuple type with the given element types.
pub open spec fn tuple_layout(elems: Seq<Layout>) -> Layout {
    enclosed("["@, elems, "]"@)
}

/// The layout of a list of type arguments or type parameters.
pub open spec fn generic_args_layout(args: Seq<Layout>) -> Layout {
    enclosed("<"@, args, ">"@)
}

/// The layout of a list of parameters.
pub open spec fn args_layout(args: Seq<Layout>) -> Layout {
    enclosed("("@, args, ")"@)
}

/// The documents, separated by commas, between `open` and `closed`.
pub fn enclose(open: &str, docs: Vec<Document>, closed: &str) -> (doc: Document)
    ensures
        doc@ == enclosed(open@, layouts(docs@), closed@),
{
    break_("", "").append(concat(intersperse(docs, break_(",", ", ")))).nest(INDENT).append(
        break_("", ""),
    ).surround(open, closed).group()
}

/// A tuple type with the given element types.
pub fn tuple(elems: Vec<Document>) -> (doc: Document)
    ensures
        doc@ == tuple_layout(layouts(elems@)),
{
    enclose("[", elems, "]")
}

/// A list of type arguments or type parameters.
pub fn wrap_generic_args(args: Vec<Document>) -> (doc: Document)
    ensures
        doc@ == generic_args_layout(layouts(args@)),
{
    enclose("<", args, ">")
}

/// A list of parameters.
pub fn wrap_args(args: Vec<Document>) -> (doc: Document)
    ensures
        doc@ == args_layout(layouts(args@)),
{
    enclose("(", args, ")")
}

} // verus!
