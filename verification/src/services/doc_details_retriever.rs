//! The boundary to the relational store: a per-collection retriever that
//! pages through one language's corpus.

use vstd::prelude::*;

use crate::errors::ErrorKind;
use crate::models::doc_details::DocDetails;

verus! {

/// A paged document source for one collection. `retrieve` must return an
/// empty page exactly when no further documents exist at or beyond
/// `offset`, and must be safe to call repeatedly with monotonically
/// increasing offsets. Implementations live with their stores, outside
/// this crate; nothing is assumed about what they return.
pub trait DocDetailsRetriever {
    fn retrieve(&self, lang: &str, limit: u64, offset: u64) -> (r: Result<
        Vec<DocDetails>,
        ErrorKind,
    >);
}

} // verus!
