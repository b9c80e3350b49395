//! Sequences put together with the `itertools` crate.

use crate::document::{interspersed, layouts, Document, Layout};
use crate::error::{Error, Output};
use crate::text::{joined, strings};
use itertools::Itertools;
use vstd::prelude::*;

verus! {

/// Whether every output is a document.
pub open spec fn all_ok(outputs: Seq<Output>) -> bool {
    forall|i: int| 0 <= i < outputs.len() ==> (#[trigger] outputs[i]) is Ok
}

/// The layouts of the outputs, in order, where every output is a document.
pub open spec fn collected(outputs: Seq<Output>) -> Seq<Layout> {
    Seq::new(outputs.len(), |i: int| outputs[i]->Ok_0@)
}

/// Whether `error` is the failure at `index` and no output before it failed.
pub open spec fn first_error(outputs: Seq<Output>, index: int, error: Error) -> bool {
    &&& 0 <= index < outputs.len()
    &&& outputs[index] == Err::<Document, Error>(error)
    &&& forall|j: int| 0 <= j < index ==> (#[trigger] outputs[j]) is Ok
}

/// Calls `itertools::Itertools::intersperse` on the documents and collects
/// what it yields: the documents in their order with a copy of `separator`
/// between each two neighbours.
#[verifier::external_body]
pub(crate) fn intersperse(docs: Vec<Document>, separator: Document) -> (spread: Vec<Document>)
    ensures
        layouts(spread@) == interspersed(layouts(docs@), separator@),
{
    Itertools::intersperse(docs.into_iter(), separator).collect()
}

/// Calls `itertools::Itertools::join` on the strings: each of them in order,
/// with `separator` written between neighbours.
#[verifier::external_body]
pub(crate) fn join(parts: &Vec<String>, separator: &str) -> (text: String)
    ensures
        text@ == joined(strings(parts@), separator@),
{
    Itertools::join(&mut parts.iter(), separator)
}

/// Calls `itertools::Itertools::try_collect` on the outputs: all the
/// documents in order where none failed, otherwise the first failure.
#[verifier::external_body]
pub(crate) fn try_collect(outputs: Vec<Output>) -> (gathered: Result<Vec<Document>, Error>)
    ensures
        match gathered {
            Ok(docs) => all_ok(outputs@) && layouts(docs@) == collected(outputs@),
            Err(error) => exists|i: int| first_error(outputs@, i, error),
        },
{
    Itertools::try_collect(outputs.into_iter())
}

} // verus!
