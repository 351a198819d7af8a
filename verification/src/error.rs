//! The refusals of the coordinator.

use vstd::prelude::*;

verus! {

/// Why a submitted move or a delivered computation result was refused.
///
/// Every refusal leaves the game record exactly as it was.
#[derive(Clone, Copy, Debug, PartialEq, Eq, Structural)]
pub enum BattleShipErrorCode {
    /// The compute network reported an aborted computation instead of a result.
    AbortedComputation,
    /// Ships were submitted while the game was not in its placement phase.
    InvalidGameState,
    /// A turn was taken by the wrong player, or outside of a turn.
    InvalidTurn,
    /// The caller is neither of the two registered players.
    UnauthorizedPlayer,
    /// A computation result did not have the length its layout prescribes.
    MalformedPayload,
}

impl BattleShipErrorCode {
    /// The text shown to a player for this refusal.
    pub open spec fn text(self) -> Seq<char> {
        match self {
            BattleShipErrorCode::AbortedComputation => {
                "The computation was aborted by the Arcium network."@
            },
            BattleShipErrorCode::InvalidGameState => {
                "The game is not in the correct state for this action."@
            },
            BattleShipErrorCode::InvalidTurn => "It is not currently this player's turn."@,
            BattleShipErrorCode::UnauthorizedPlayer => {
                "The transaction was signed by an unauthorized player."@
            },
            BattleShipErrorCode::MalformedPayload => {
                "The computation result has an unexpected length."@
            },
        }
    }

    /// The text shown to a player for this refusal.
    pub fn message(&self) -> (text: &'static str)
        ensures
            text@ == self.text(),
    {
        match self {
            BattleShipErrorCode::AbortedComputation => {
                "The computation was aborted by the Arcium network."
            },
            BattleShipErrorCode::InvalidGameState => {
                "The game is not in the correct state for this action."
            },
            BattleShipErrorCode::InvalidTurn => "It is not currently this player's turn.",
            BattleShipErrorCode::UnauthorizedPlayer => {
                "The transaction was signed by an unauthorized player."
            },
            BattleShipErrorCode::MalformedPayload => {
                "The computation result has an unexpected length."
            },
        }
    }
}

} // verus!
