//! A row of the game collection as read from the relational store.

use vstd::prelude::*;

verus! {

pub struct Game {
    pub id: u64,
    pub title: String,
}

impl Game {
    pub fn new(id: u64, title: String) -> (r: Game)
        ensures
            r == (Game { id, title }),
    {
        Game { id, title }
    }

    pub fn id(&self) -> (r: u64)
        ensures
            r == self.id,
    {
        self.id
    }

    pub fn title(&self) -> (r: &str)
        ensures
            r@ == self.title@,
    {
        self.title.as_str()
    }
}

} // verus!
