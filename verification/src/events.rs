//! What the coordinator announces after a result has been stored.

use crate::keys::Pubkey;
use crate::record::GameState;
use vstd::prelude::*;

verus! {

/// Announces that a match exists and that its empty encrypted fleet is stored.
#[derive(Clone, Copy, Debug, PartialEq, Eq)]
pub struct GameCreated {
    pub game_pda: Pubkey,
    pub player_1: Pubkey,
    pub player_2: Pubkey,
}

/// Announces that a player's placement has been stored.
#[derive(Clone, Copy, Debug, PartialEq, Eq)]
pub struct ShipsPlaced {
    pub game_pda: Pubkey,
}

/// Announces how a guess ended and where the match stands after it.
#[derive(Clone, Copy, Debug, PartialEq, Eq)]
pub struct TurnResult {
    pub game_pda: Pubkey,
    pub was_hit: bool,
    pub ships_left_player_1: u8,
    pub ships_left_player_2: u8,
    pub new_game_state: GameState,
}

} // verus!
