//! A row of the movie collection as read from the relational store.

use vstd::prelude::*;

verus! {

pub struct Movie {
    pub id: u64,
    pub title: String,
}

impl Movie {
    pub fn new(id: u64, title: String) -> (r: Movie)
        ensures
            r == (Movie { id, title }),
    {
        Movie { id, title }
    }

    pub fn id(&self) -> (r: u64)
        ensures
            r == self.id,
    {
        self.id
    }

    pub fn title(&self) -> (r: &str)
        ensures
            r@ == self.title@,
    {
        self.title.as_str()
    }
}

} // verus!
