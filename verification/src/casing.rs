//! Upper camel case, as the `heck` crate writes it.

use heck::ToUpperCamelCase;
use vstd::prelude::*;

verus! {

/// What `heck` makes of `word` in upper camel case: the words of `word`,
/// each capitalised, written without anything between them.
pub uninterp spec fn upper_camel_case(word: Seq<char>) -> Seq<char>;

/// Calls `heck::ToUpperCamelCase::to_upper_camel_case` on `word`. The result
/// depends on the characters of `word` alone; the contract gives it its name
/// and claims nothing more of it.
#[verifier::external_body]
pub(crate) fn to_upper_camel_case(word: &str) -> (cased: String)
    ensures
        cased@ == upper_camel_case(word@),
{
    word.to_upper_camel_case()
}

} // verus!
