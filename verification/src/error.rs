//! The one way emission can fail.

use crate::document::Document;
use vstd::prelude::*;

verus! {

/// Why no declaration file was produced.
#[derive(Debug, Clone, Copy, PartialEq, Eq, Structural)]
pub enum Error {
    /// The document of one declaration could not be composed.
    Layout,
}

/// What emitting one declaration gives: its document, or the failure.
pub type Output = Result<Document, Error>;

} // verus!
