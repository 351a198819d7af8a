//! Why the ship counts of a record agree with the fleets beneath the
//! encryption, as long as the players place fairly and guess on the board.

use crate::fleet::{
    afloat, distinct_afloat, lemma_hit_sinks_exactly_one_cell, lemma_placed_on_board_is_afloat,
    on_board, Cell, FleetView,
};
use crate::record::{GameState, GameView};
use vstd::prelude::*;

verus! {

/// Whether the ship counts of the record say how many ship cells of each
/// fleet are afloat.
pub open spec fn counts_match(game: GameView, fleet: FleetView) -> bool {
    &&& game.player_1_ships_left == afloat(fleet.player_1)
    &&& game.player_2_ships_left == afloat(fleet.player_2)
}

/// Once both players have placed 17 coordinates on the board, the counts of
/// a match in which nobody has lost a ship say how many cells are afloat.
pub proof fn lemma_counts_match_after_placement(game: GameView, fleet: FleetView)
    requires
        fleet.wf(),
        forall|i: int| 0 <= i < 17 ==> on_board(#[trigger] fleet.player_1[i]),
        forall|i: int| 0 <= i < 17 ==> on_board(#[trigger] fleet.player_2[i]),
        game.player_1_ships_left == 17,
        game.player_2_ships_left == 17,
    ensures
        counts_match(game, fleet),
{
    lemma_placed_on_board_is_afloat(fleet.player_1);
    lemma_placed_on_board_is_afloat(fleet.player_2);
}

/// The ship counts follow the fleets. Where neither fleet holds a coordinate
/// of the board twice and the counts say how many cells are afloat, they
/// still do so after a guess on the board has been resolved, and the match
/// is finished exactly when one fleet has nothing afloat. Fleets that repeat
/// a coordinate, and guesses off the board, are what breaks this: a hit on
/// several slots at once costs one ship only.
pub proof fn lemma_counts_follow_the_fleets(game: GameView, fleet: FleetView, guess: Cell)
    requires
        game.wf(),
        game.game_state.is_turn(),
        fleet.wf(),
        distinct_afloat(fleet.player_1),
        distinct_afloat(fleet.player_2),
        counts_match(game, fleet),
        on_board(guess),
    ensures
        ({
            let player_1_attacks = game.game_state == GameState::Player1Turn;
            let next = game.after_turn(fleet.is_hit(player_1_attacks, guess));
            let after = fleet.strike(player_1_attacks, guess);
            &&& next.wf()
            &&& after.wf()
            &&& distinct_afloat(after.player_1)
            &&& distinct_afloat(after.player_2)
            &&& counts_match(next, after)
            &&& (next.game_state == GameState::Finished <==> (afloat(after.player_1) == 0
                || afloat(after.player_2) == 0))
        }),
{
    let player_1_attacks = game.game_state == GameState::Player1Turn;
    lemma_hit_sinks_exactly_one_cell(fleet.opponent_slots(player_1_attacks), guess);
}

} // verus!
