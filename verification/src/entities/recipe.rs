//! A row of the recipe collection as read from the relational store.

use vstd::prelude::*;

verus! {

pub struct Recipe {
    pub id: u64,
    pub title: String,
}

impl Recipe {
    pub fn new(id: u64, title: String) -> (r: Recipe)
        ensures
            r == (Recipe { id, title }),
    {
        Recipe { id, title }
    }

    pub fn id(&self) -> (r: u64)
        ensures
            r == self.id,
    {
        self.id
    }

    pub fn title(&self) -> (r: &str)
        ensures
            r@ == self.title@,
    {
        self.title.as_str()
    }
}

} // verus!
