//! A document as it enters the indexing pipeline: an identifier and a title.
//! The title is normalized to ASCII lowercase exactly once, at construction.

use vstd::prelude::*;

use crate::text::{ascii_lower, lower_seq};

verus! {

pub struct DocDetails {
    id: u64,
    title: String,
}

impl View for DocDetails {
    type V = (u64, Seq<char>);

    closed spec fn view(&self) -> (u64, Seq<char>) {
        (self.id, self.title@)
    }
}

impl DocDetails {
    /// Build a document, lowercasing the title on the way in.
    pub fn new(id: u64, title: String) -> (d: DocDetails)
        ensures
            d@ == (id, lower_seq(title@)),
    {
        DocDetails { id, title: ascii_lower(title.as_str()) }
    }

    pub fn id(&self) -> (r: u64)
        ensures
            r == self@.0,
    {
        self.id
    }

    pub fn title(&self) -> (r: &str)
        ensures
            r@ == self@.1,
    {
        self.title.as_str()
    }
}

/// The views of a sequence of documents.
pub open spec fn doc_views(ds: Seq<DocDetails>) -> Seq<(u64, Seq<char>)> {
    ds.map_values(|d: DocDetails| d@)
}

} // verus!
