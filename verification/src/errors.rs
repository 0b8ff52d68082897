//! The error taxonomy of the search core. Client-input errors
//! (`UnknownCollection`, `UnknownLanguage`, `EmptyQuery`) are surfaced to the
//! caller; rebuild-side errors (`RetrieverFailure`, `IndexBuildFailure`) are
//! contained per language; `IndexQueryFailure` reports a failing lookup.

use vstd::prelude::*;

verus! {

#[derive(Clone, Copy, PartialEq, Eq, Structural, Debug)]
pub enum ErrorKind {
    /// The collection value lies outside the closed set.
    UnknownCollection,
    /// The language value lies outside the closed set.
    UnknownLanguage,
    /// The normalized keyword input produced zero tokens.
    EmptyQuery,
    /// An external fetch failed mid-pagination for one language.
    RetrieverFailure,
    /// Committing or writing a new language index failed.
    IndexBuildFailure,
    /// The underlying search mechanism failed on a well-formed query.
    IndexQueryFailure,
}

impl ErrorKind {
    /// A short diagnostic name for logs and transport mapping.
    pub fn as_str(&self) -> (r: &'static str)
    {
        match self {
            ErrorKind::UnknownCollection => "unknown collection",
            ErrorKind::UnknownLanguage => "unknown language",
            ErrorKind::EmptyQuery => "empty query",
            ErrorKind::RetrieverFailure => "retriever failure",
            ErrorKind::IndexBuildFailure => "index build failure",
            ErrorKind::IndexQueryFailure => "index query failure",
        }
    }
}

} // verus!
