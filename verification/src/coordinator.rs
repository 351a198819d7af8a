//! The handlers of the coordinator: one for each move that a player submits
//! and one for each result that the compute network delivers. A handler of a
//! move only reads the record and builds a request; a handler of a result is
//! the only thing that changes a record.

use crate::error::BattleShipErrorCode;
use crate::events::{GameCreated, ShipsPlaced, TurnResult};
use crate::gateway::{
    computation_for, decode_fleet_output, decode_fleet_spec, decode_turn_output,
    decode_turn_spec, init_args, move_args, queue_init, queue_move, ComputationKind,
    ComputationOutputs, QueuedComputation,
};
use crate::guard::{authorize_placement, authorize_turn, placement_role, turn_role};
use crate::keys::Pubkey;
use crate::record::{GameData, GameState, GameView, STARTING_SHIPS};
use vstd::prelude::*;

verus! {

/// Creates the record of a match between `payer`, who becomes player 1, and
/// `player_2_pubkey`, and builds the request that initializes its encrypted
/// fleet. Until the result of that request is stored, the fleet and its
/// nonce hold zeros.
pub fn new_game(
    payer: Pubkey,
    game_pda: Pubkey,
    bump: u8,
    player_2_pubkey: Pubkey,
    player_1_arcium_pubkey: [u8; 32],
    player_2_arcium_pubkey: [u8; 32],
    computation_offset: u64,
    mxe_nonce: u128,
) -> (out: (GameData, QueuedComputation))
    ensures
        out.0@ == GameView::created(
            bump,
            payer@,
            player_2_pubkey@,
            player_1_arcium_pubkey@,
            player_2_arcium_pubkey@,
        ),
        out.0@.wf(),
        out.1@ == computation_for(
            ComputationKind::InitPlayerShipFleetLocation,
            computation_offset,
            init_args(mxe_nonce),
            game_pda,
        ),
{
    let game = GameData {
        bump,
        player_1: payer,
        player_2: player_2_pubkey,
        player_1_arcium_pubkey,
        player_2_arcium_pubkey,
        game_state: GameState::PlacingShips,
        player_1_ships_left: STARTING_SHIPS,
        player_2_ships_left: STARTING_SHIPS,
        fleet_state_nonce: [0u8; 16],
        encrypted_fleet_state: [[0u8; 32]; 34],
    };
    assert(game@.fleet_state_nonce =~= Seq::new(16, |i: int| 0u8));
    assert(game@.encrypted_fleet_state =~= Seq::new(1088, |i: int| 0u8));
    (game, queue_init(computation_offset, mxe_nonce, game_pda))
}

/// Admits or refuses the placement that `payer` submits, and builds the
/// request that hands the encrypted placement and the current fleet to the
/// place-ships computation. The record is only read.
pub fn place_ships_ix(
    game: &GameData,
    game_pda: Pubkey,
    payer: Pubkey,
    computation_offset: u64,
    input_nonce: u128,
    encrypted_ship_locations: [u8; 32],
) -> (res: Result<QueuedComputation, BattleShipErrorCode>)
    ensures
        (match placement_role(game@, payer@) {
            Ok(is_player_1) => res is Ok && res->Ok_0@ == computation_for(
                ComputationKind::PlaceShips,
                computation_offset,
                move_args(
                    game.arcium_pubkey_of(is_player_1),
                    input_nonce,
                    encrypted_ship_locations,
                    game.fleet_state_nonce,
                    game_pda,
                ),
                game_pda,
            ),
            Err(e) => res == Err::<QueuedComputation, BattleShipErrorCode>(e),
        }),
{
    let is_player_1 = match authorize_placement(game, &payer) {
        Ok(is_player_1) => is_player_1,
        Err(e) => {
            return Err(e);
        },
    };
    let player_arcium_pubkey = if is_player_1 {
        game.player_1_arcium_pubkey
    } else {
        game.player_2_arcium_pubkey
    };
    Ok(
        queue_move(
            ComputationKind::PlaceShips,
            computation_offset,
            player_arcium_pubkey,
            input_nonce,
            encrypted_ship_locations,
            &game.fleet_state_nonce,
            game_pda,
        ),
    )
}

/// Admits or refuses the guess that `payer` submits, and builds the request
/// that hands the encrypted guess and the current fleet to the take-turn
/// computation. The record is only read: the turn passes on when the result
/// of the computation is consumed.
pub fn take_turn_ix(
    game: &GameData,
    game_pda: Pubkey,
    payer: Pubkey,
    computation_offset: u64,
    input_nonce: u128,
    encrypted_guess: [u8; 32],
) -> (res: Result<QueuedComputation, BattleShipErrorCode>)
    ensures
        (match turn_role(game@, payer@) {
            Ok(is_player_1) => res is Ok && res->Ok_0@ == computation_for(
                ComputationKind::TakeTurn,
                computation_offset,
                move_args(
                    game.arcium_pubkey_of(is_player_1),
                    input_nonce,
                    encrypted_guess,
                    game.fleet_state_nonce,
                    game_pda,
                ),
                game_pda,
            ),
            Err(e) => res == Err::<QueuedComputation, BattleShipErrorCode>(e),
        }),
{
    let is_player_1 = match authorize_turn(game, &payer) {
        Ok(is_player_1) => is_player_1,
        Err(e) => {
            return Err(e);
        },
    };
    let player_arcium_pubkey = if is_player_1 {
        game.player_1_arcium_pubkey
    } else {
        game.player_2_arcium_pubkey
    };
    Ok(
        queue_move(
            ComputationKind::TakeTurn,
            computation_offset,
            player_arcium_pubkey,
            input_nonce,
            encrypted_guess,
            &game.fleet_state_nonce,
            game_pda,
        ),
    )
}

/// What a delivered initialize or place-ships result does to a match: the
/// fleet and its nonce are replaced, or the result is refused.
pub open spec fn apply_fleet_output(game: GameView, output: ComputationOutputs) -> Result<
    GameView,
    BattleShipErrorCode,
> {
    match decode_fleet_spec(output) {
        Ok(update) => Ok(game.with_fleet(update)),
        Err(e) => Err(e),
    }
}

/// What a delivered take-turn result does to a match. Outside of a turn
/// there is no guess to resolve, and the result is refused.
pub open spec fn apply_turn_output(game: GameView, output: ComputationOutputs) -> Result<
    GameView,
    BattleShipErrorCode,
> {
    match decode_turn_spec(output) {
        Ok(outcome) => if game.game_state.is_turn() {
            Ok(game.after_turn(outcome.was_hit).with_fleet(outcome.update))
        } else {
            Err(BattleShipErrorCode::InvalidTurn)
        },
        Err(e) => Err(e),
    }
}

/// Consumes the result of the initialize computation: stores the first
/// encrypted fleet and its nonce. On refusal the record is untouched.
pub fn init_player_ship_fleet_location_callback(
    game: &mut GameData,
    game_pda: Pubkey,
    output: &ComputationOutputs,
) -> (res: Result<GameCreated, BattleShipErrorCode>)
    ensures
        (match apply_fleet_output(old(game)@, *output) {
            Ok(next) => final(game)@ == next && res == Ok::<GameCreated, BattleShipErrorCode>(
                GameCreated {
                    game_pda,
                    player_1: old(game).player_1,
                    player_2: old(game).player_2,
                },
            ),
            Err(e) => *final(game) == *old(game) && res == Err::<GameCreated, BattleShipErrorCode>(
                e,
            ),
        }),
{
    let update = match decode_fleet_output(output) {
        Ok(update) => update,
        Err(e) => {
            return Err(e);
        },
    };
    game.store_fleet(update);
    Ok(GameCreated { game_pda, player_1: game.player_1, player_2: game.player_2 })
}

/// Consumes the result of a place-ships computation: stores the new
/// encrypted fleet and its nonce. The phase of the match stays as it is.
/// On refusal the record is untouched.
pub fn place_ships_callback(
    game: &mut GameData,
    game_pda: Pubkey,
    output: &ComputationOutputs,
) -> (res: Result<ShipsPlaced, BattleShipErrorCode>)
    ensures
        (match apply_fleet_output(old(game)@, *output) {
            Ok(next) => final(game)@ == next && res == Ok::<ShipsPlaced, BattleShipErrorCode>(
                ShipsPlaced { game_pda },
            ),
            Err(e) => *final(game) == *old(game) && res == Err::<ShipsPlaced, BattleShipErrorCode>(
                e,
            ),
        }),
{
    let update = match decode_fleet_output(output) {
        Ok(update) => update,
        Err(e) => {
            return Err(e);
        },
    };
    game.store_fleet(update);
    Ok(ShipsPlaced { game_pda })
}

/// Consumes the result of a take-turn computation.
///
/// On success the record holds the new fleet and nonce, the defender has
/// lost one ship if the guess hit, and the match is finished or the turn has
/// passed on. On refusal the record is untouched.
pub fn take_turn_callback(
    game: &mut GameData,
    game_pda: Pubkey,
    output: &ComputationOutputs,
) -> (res: Result<TurnResult, BattleShipErrorCode>)
    requires
        old(game)@.wf(),
    ensures
        final(game)@.wf(),
        final(game).player_1_ships_left <= old(game).player_1_ships_left,
        final(game).player_2_ships_left <= old(game).player_2_ships_left,
        (match apply_turn_output(old(game)@, *output) {
            Ok(next) => final(game)@ == next && res == Ok::<TurnResult, BattleShipErrorCode>(
                TurnResult {
                    game_pda,
                    was_hit: decode_turn_spec(*output)->Ok_0.was_hit,
                    ships_left_player_1: final(game).player_1_ships_left,
                    ships_left_player_2: final(game).player_2_ships_left,
                    new_game_state: final(game).game_state,
                },
            ),
            Err(e) => *final(game) == *old(game) && res == Err::<TurnResult, BattleShipErrorCode>(
                e,
            ),
        }),
{
    let outcome = match decode_turn_output(output) {
        Ok(outcome) => outcome,
        Err(e) => {
            return Err(e);
        },
    };
    let player_1_attacks = match game.game_state {
        GameState::Player1Turn => true,
        GameState::Player2Turn => false,
        _ => {
            return Err(BattleShipErrorCode::InvalidTurn);
        },
    };
    let mut finished = false;
    if outcome.was_hit {
        if player_1_attacks {
            game.player_2_ships_left = game.player_2_ships_left - 1;
            finished = game.player_2_ships_left == 0;
        } else {
            game.player_1_ships_left = game.player_1_ships_left - 1;
            finished = game.player_1_ships_left == 0;
        }
    }
    if finished {
        game.game_state = GameState::Finished;
    } else if player_1_attacks {
        game.game_state = GameState::Player2Turn;
    } else {
        game.game_state = GameState::Player1Turn;
    }
    game.store_fleet(outcome.update);
    Ok(
        TurnResult {
            game_pda,
            was_hit: outcome.was_hit,
            ships_left_player_1: game.player_1_ships_left,
            ships_left_player_2: game.player_2_ships_left,
            new_game_state: game.game_state,
        },
    )
}

/// A new match satisfies the invariant: both players hold 17 ships, and the
/// match is not finished.
pub proof fn lemma_new_match_is_well_formed(
    bump: u8,
    player_1: Seq<u8>,
    player_2: Seq<u8>,
    player_1_arcium_pubkey: Seq<u8>,
    player_2_arcium_pubkey: Seq<u8>,
)
    ensures
        ({
            let game = GameView::created(
                bump,
                player_1,
                player_2,
                player_1_arcium_pubkey,
                player_2_arcium_pubkey,
            );
            &&& game.wf()
            &&& game.game_state == GameState::PlacingShips
            &&& game.player_1_ships_left == 17
            &&& game.player_2_ships_left == 17
        }),
{
}

/// No accepted result makes a ship count grow or leave the range from 0 to
/// 17, and after every accepted result the match is finished exactly when
/// some player has no ship left. A stored fleet changes neither the counts
/// nor the phase.
pub proof fn lemma_ships_left_never_grows(game: GameView, output: ComputationOutputs)
    requires
        game.wf(),
    ensures
        apply_fleet_output(game, output) matches Ok(next) ==> ({
            &&& next.wf()
            &&& next.game_state == game.game_state
            &&& next.player_1_ships_left == game.player_1_ships_left
            &&& next.player_2_ships_left == game.player_2_ships_left
        }),
        apply_turn_output(game, output) matches Ok(next) ==> ({
            &&& next.wf()
            &&& next.player_1_ships_left <= game.player_1_ships_left <= 17
            &&& next.player_2_ships_left <= game.player_2_ships_left <= 17
            &&& (next.game_state == GameState::Finished <==> (next.player_1_ships_left == 0
                || next.player_2_ships_left == 0))
        }),
{
}

/// A finished match stays finished: no placement and no guess is admitted
/// from anyone, no take-turn result is accepted, and a stored fleet leaves
/// the phase alone.
pub proof fn lemma_finished_is_terminal(
    game: GameView,
    payer: Seq<u8>,
    output: ComputationOutputs,
)
    requires
        game.game_state == GameState::Finished,
    ensures
        placement_role(game, payer) is Err,
        turn_role(game, payer) is Err,
        apply_turn_output(game, output) is Err,
        apply_fleet_output(game, output) matches Ok(next) ==> next.game_state
            == GameState::Finished,
{
}

/// A guess that misses costs nobody a ship and passes the turn to the other
/// player.
pub proof fn lemma_miss_passes_the_turn(game: GameView, output: ComputationOutputs)
    requires
        game.wf(),
        game.game_state.is_turn(),
        decode_turn_spec(output) matches Ok(outcome) && !outcome.was_hit,
    ensures
        apply_turn_output(game, output) matches Ok(next) && ({
            &&& next.player_1_ships_left == game.player_1_ships_left
            &&& next.player_2_ships_left == game.player_2_ships_left
            &&& next.game_state == game.game_state.flipped()
            &&& next.game_state.is_turn()
            &&& next.game_state != game.game_state
        }),
{
}

/// A guess that hits costs the defender exactly one ship and the attacker
/// none. The match is finished if that was the defender's last ship, and the
/// turn passes on if it was not.
pub proof fn lemma_hit_costs_the_defender_one_ship(game: GameView, output: ComputationOutputs)
    requires
        game.wf(),
        game.game_state.is_turn(),
        decode_turn_spec(output) matches Ok(outcome) && outcome.was_hit,
    ensures
        apply_turn_output(game, output) matches Ok(next) && ({
            let player_1_attacks = game.game_state == GameState::Player1Turn;
            let defender_had = if player_1_attacks {
                game.player_2_ships_left
            } else {
                game.player_1_ships_left
            };
            &&& player_1_attacks ==> next.player_1_ships_left == game.player_1_ships_left
                && next.player_2_ships_left == game.player_2_ships_left - 1
            &&& !player_1_attacks ==> next.player_2_ships_left == game.player_2_ships_left
                && next.player_1_ships_left == game.player_1_ships_left - 1
            &&& next.game_state == if defender_had == 1 {
                GameState::Finished
            } else {
                game.game_state.flipped()
            }
        }),
{
}

/// The encrypted fleet and its nonce change together or not at all: after an
/// accepted result both are the ones that the result carries.
pub proof fn lemma_fleet_and_nonce_move_together(game: GameView, output: ComputationOutputs)
    ensures
        apply_fleet_output(game, output) matches Ok(next) ==> ({
            &&& decode_fleet_spec(output) matches Ok(update)
            &&& next.fleet_state_nonce == update.nonce
            &&& next.encrypted_fleet_state == update.encrypted_fleet
        }),
        apply_turn_output(game, output) matches Ok(next) ==> ({
            &&& decode_turn_spec(output) matches Ok(outcome)
            &&& next.fleet_state_nonce == outcome.update.nonce
            &&& next.encrypted_fleet_state == outcome.update.encrypted_fleet
        }),
{
}

} // verus!
