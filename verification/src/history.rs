//! The invariant of a match over its whole history: whatever the compute
//! network delivers, and in whatever order.

use crate::coordinator::{apply_fleet_output, apply_turn_output};
use crate::gateway::ComputationOutputs;
use crate::record::{GameState, GameView};
use vstd::prelude::*;

verus! {

/// A result that the compute network delivers to a match.
pub enum Delivery {
    /// The result of the initialize computation.
    FirstFleet(ComputationOutputs),
    /// The result of a place-ships computation.
    Placement(ComputationOutputs),
    /// The result of a take-turn computation.
    Turn(ComputationOutputs),
}

/// The match after one delivery. A result that is refused leaves the match
/// as it was.
pub open spec fn deliver(game: GameView, delivery: Delivery) -> GameView {
    let applied = match delivery {
        Delivery::FirstFleet(output) => apply_fleet_output(game, output),
        Delivery::Placement(output) => apply_fleet_output(game, output),
        Delivery::Turn(output) => apply_turn_output(game, output),
    };
    match applied {
        Ok(next) => next,
        Err(_) => game,
    }
}

/// The match after a whole history of deliveries, the earliest first. The
/// moves that players submit in between do not occur in it: submitting
/// changes nothing.
pub open spec fn replay(game: GameView, deliveries: Seq<Delivery>) -> GameView
    decreases deliveries.len(),
{
    if deliveries.len() == 0 {
        game
    } else {
        deliver(replay(game, deliveries.drop_last()), deliveries.last())
    }
}

/// Whatever is delivered to a match, and in whatever order, its invariant
/// holds throughout: no ship count ever grows or exceeds 17, and the match
/// is finished exactly when a player has no ship left.
pub proof fn lemma_invariant_holds_throughout(game: GameView, deliveries: Seq<Delivery>)
    requires
        game.wf(),
    ensures
        replay(game, deliveries).wf(),
        replay(game, deliveries).player_1_ships_left <= game.player_1_ships_left <= 17,
        replay(game, deliveries).player_2_ships_left <= game.player_2_ships_left <= 17,
    decreases deliveries.len(),
{
    if deliveries.len() > 0 {
        lemma_invariant_holds_throughout(game, deliveries.drop_last());
    }
}

/// A finished match stays finished, with the ship counts it finished with,
/// whatever is delivered to it.
pub proof fn lemma_finished_forever(game: GameView, deliveries: Seq<Delivery>)
    requires
        game.game_state == GameState::Finished,
    ensures
        replay(game, deliveries).game_state == GameState::Finished,
        replay(game, deliveries).player_1_ships_left == game.player_1_ships_left,
        replay(game, deliveries).player_2_ships_left == game.player_2_ships_left,
    decreases deliveries.len(),
{
    if deliveries.len() > 0 {
        lemma_finished_forever(game, deliveries.drop_last());
    }
}

/// While a match is being placed it stays so whatever is delivered: no
/// delivery starts the turns.
pub proof fn lemma_placement_never_ends_by_delivery(game: GameView, deliveries: Seq<Delivery>)
    requires
        game.game_state == GameState::PlacingShips,
    ensures
        replay(game, deliveries).game_state == GameState::PlacingShips,
        replay(game, deliveries).player_1_ships_left == game.player_1_ships_left,
        replay(game, deliveries).player_2_ships_left == game.player_2_ships_left,
    decreases deliveries.len(),
{
    if deliveries.len() > 0 {
        lemma_placement_never_ends_by_delivery(game, deliveries.drop_last());
    }
}

} // verus!
