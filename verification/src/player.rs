//! A player of the game

use vstd::prelude::*;

verus! {

/// A player of the game
pub struct Player {
    /// The name of the player
    pub name: String,
    /// The id of the player, once it has one
    pub id: Option<u32>,
}

impl Player {
    /// A new player, named "bob", with no id yet
    pub fn new() -> (p: Option<Player>)
        ensures
            p matches Some(x) && x.name@ == "bob"@ && x.id is None,
    {
        Some(Player { name: "bob".to_owned(), id: None })
    }

    /// Is the player name valid? (It must not be empty.)
    pub fn valid_name(n: String) -> (b: bool)
        ensures
            b == (n@.len() > 0),
    {
        let c1 = !n.as_str().is_empty();
        c1
    }
}

} // verus!
