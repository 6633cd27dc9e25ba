//! Game modes and their protocol ids.

use vstd::prelude::*;

verus! {

/// A game mode.
#[derive(Debug, Clone, Copy, PartialEq, Eq, Hash)]
pub enum GameType {
    Survival,
    Creative,
    Adventure,
    Spectator,
}

/// The id that stands for "no game mode" where one is optional.
pub const NO_GAME_TYPE_ID: i8 = -1;

impl GameType {
    /// The protocol id of the game mode.
    pub open spec fn id(&self) -> u8 {
        match self {
            GameType::Survival => 0,
            GameType::Creative => 1,
            GameType::Adventure => 2,
            GameType::Spectator => 3,
        }
    }

    /// The protocol id of an optional game mode: the mode's own id, or
    /// `NO_GAME_TYPE_ID` for none.
    pub open spec fn optional_id(game_type: Option<GameType>) -> i8 {
        match game_type {
            Some(game_type) => game_type.id() as i8,
            None => NO_GAME_TYPE_ID,
        }
    }

    /// The protocol id of the game mode.
    pub fn to_id(&self) -> (id: u8)
        ensures
            id == self.id(),
    {
        match self {
            GameType::Survival => 0,
            GameType::Creative => 1,
            GameType::Adventure => 2,
            GameType::Spectator => 3,
        }
    }

    /// The protocol id of an optional game mode.
    pub fn to_optional_id(game_type: &Option<GameType>) -> (id: i8)
        ensures
            id == GameType::optional_id(*game_type),
    {
        match game_type {
            Some(game_type) => game_type.to_id() as i8,
            None => NO_GAME_TYPE_ID,
        }
    }
}

} // verus!
