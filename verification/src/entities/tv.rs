//! A row of the tv collection as read from the relational store.

use vstd::prelude::*;

verus! {

pub struct Tv {
    pub id: u64,
    pub title: String,
}

impl Tv {
    pub fn new(id: u64, title: String) -> (r: Tv)
        ensures
            r == (Tv { id, title }),
    {
        Tv { id, title }
    }

    pub fn id(&self) -> (r: u64)
        ensures
            r == self.id,
    {
        self.id
    }

    pub fn title(&self) -> (r: &str)
        ensures
            r@ == self.title@,
    {
        self.title.as_str()
    }
}

} // verus!
