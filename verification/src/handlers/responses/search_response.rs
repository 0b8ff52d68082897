//! The outbound search response: the ranked document identifiers.

use vstd::prelude::*;

verus! {

pub struct SearchResponse {
    pub results: Vec<u64>,
}

impl SearchResponse {
    pub fn new(results: Vec<u64>) -> (r: SearchResponse)
        ensures
            r == (SearchResponse { results }),
    {
        SearchResponse { results }
    }

    pub fn results(&self) -> (r: &[u64])
        ensures
            r@ == self.results@,
    {
        self.results.as_slice()
    }
}

} // verus!
