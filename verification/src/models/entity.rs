//! The closed set of document collections that are indexed and searchable.

use vstd::prelude::*;

use crate::errors::ErrorKind;
use crate::text::str_eq;

verus! {

#[derive(Clone, Copy, PartialEq, Eq, Hash, Structural, Debug)]
pub enum Entity {
    Movie,
    Tv,
    Game,
    Recipe,
}

impl Entity {
    /// Parse a wire code; anything outside the closed set is rejected.
    pub fn parse(value: &str) -> (r: Result<Entity, ErrorKind>)
        ensures
            value@ == "MOVIE"@ ==> r == Ok::<Entity, ErrorKind>(Entity::Movie),
            value@ == "TV"@ ==> r == Ok::<Entity, ErrorKind>(Entity::Tv),
            value@ == "GAME"@ ==> r == Ok::<Entity, ErrorKind>(Entity::Game),
            value@ == "RECIPE"@ ==> r == Ok::<Entity, ErrorKind>(Entity::Recipe),
            value@ != "MOVIE"@ && value@ != "TV"@ && value@ != "GAME"@ && value@ != "RECIPE"@
                ==> r == Err::<Entity, ErrorKind>(ErrorKind::UnknownCollection),
    {
        proof {
            reveal_strlit("MOVIE");
            reveal_strlit("TV");
            reveal_strlit("GAME");
            reveal_strlit("RECIPE");
            assert("MOVIE"@.len() == 5 && "TV"@.len() == 2 && "GAME"@.len() == 4 && "RECIPE"@.len()
                == 6);
        }
        if str_eq(value, "MOVIE") {
            Ok(Entity::Movie)
        } else if str_eq(value, "TV") {
            Ok(Entity::Tv)
        } else if str_eq(value, "GAME") {
            Ok(Entity::Game)
        } else if str_eq(value, "RECIPE") {
            Ok(Entity::Recipe)
        } else {
            Err(ErrorKind::UnknownCollection)
        }
    }
}

} // verus!
