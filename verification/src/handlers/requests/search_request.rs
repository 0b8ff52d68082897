//! An inbound search request: the free-text keywords and the collection
//! they target.

use vstd::prelude::*;

verus! {

pub struct SearchRequest {
    pub keywords: String,
    pub entity: String,
}

impl SearchRequest {
    pub fn new(keywords: String, entity: String) -> (r: SearchRequest)
        ensures
            r == (SearchRequest { keywords, entity }),
    {
        SearchRequest { keywords, entity }
    }

    pub fn keywords_mut(&mut self) -> (r: &mut String)
        ensures
            *r == old(self).keywords,
            *final(self) == (SearchRequest { keywords: *final(r), ..*old(self) }),
    {
        &mut self.keywords
    }

    pub fn entity(&self) -> (r: &String)
        ensures
            r == self.entity,
    {
        &self.entity
    }
}

} // verus!
