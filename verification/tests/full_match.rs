use confidential_battleship_game::coordinator::{
    init_player_ship_fleet_location_callback, new_game, place_ships_callback, place_ships_ix,
    take_turn_callback, take_turn_ix,
};
use confidential_battleship_game::error::BattleShipErrorCode;
use confidential_battleship_game::fleet::{
    init_player_ship_fleet_location, place_ships, take_turn, PlaceShipsInputs, PlayerShipFleet,
    TakeTurnInputs,
};
use confidential_battleship_game::gateway::{Argument, ComputationKind, ComputationOutputs};
use confidential_battleship_game::keys::Pubkey;
use confidential_battleship_game::record::{GameData, GameState};

const ALICE: Pubkey = Pubkey([0xa1; 32]);
const BOB: Pubkey = Pubkey([0xb0; 32]);
const MATCH: Pubkey = Pubkey([0x33; 32]);

/// Stands in for the compute network: it keeps no secret and writes each
/// slot into the first two bytes of its ciphertext unit.
fn sealed(fleet: &PlayerShipFleet, nonce: u128) -> Vec<u8> {
    let mut bytes = nonce.to_le_bytes().to_vec();
    for slot in fleet.player_1.iter().chain(fleet.player_2.iter()) {
        let mut unit = [0u8; 32];
        unit[0] = slot[0];
        unit[1] = slot[1];
        bytes.extend(unit);
    }
    bytes
}

fn opened(game: &GameData) -> PlayerShipFleet {
    let mut fleet = init_player_ship_fleet_location();
    for i in 0..17 {
        fleet.player_1[i] = [game.encrypted_fleet_state[i][0], game.encrypted_fleet_state[i][1]];
        fleet.player_2[i] =
            [game.encrypted_fleet_state[17 + i][0], game.encrypted_fleet_state[17 + i][1]];
    }
    fleet
}

fn cells_on_board(slots: &[[u8; 2]; 17]) -> u8 {
    let mut count = 0;
    for slot in slots {
        if slot[0] < 10 && slot[1] < 10 {
            count += 1;
        }
    }
    count
}

fn column(col: u8) -> [[u8; 2]; 17] {
    let mut slots = [[0u8; 2]; 17];
    for i in 0..17u8 {
        slots[i as usize] = [i % 10, col + i / 10];
    }
    slots
}

/// Runs the place-ships computation for a request that the coordinator built.
fn network_places(
    game: &GameData,
    is_player_1: bool,
    at: [[u8; 2]; 17],
    nonce: u128,
) -> ComputationOutputs {
    let placed =
        place_ships(PlaceShipsInputs { is_player_1, fleet_location: at }, opened(game));
    ComputationOutputs::Bytes(sealed(&placed, nonce))
}

/// Runs the take-turn computation for a request that the coordinator built.
fn network_resolves(
    game: &GameData,
    is_player_1: bool,
    guess: [u8; 2],
    nonce: u128,
) -> ComputationOutputs {
    let (after, was_hit) = take_turn(TakeTurnInputs { is_player_1, guess }, opened(game));
    let mut bytes = vec![if was_hit { 1u8 } else { 0u8 }];
    bytes.extend(sealed(&after, nonce));
    ComputationOutputs::Bytes(bytes)
}

fn placed_match() -> GameData {
    let (mut game, request) = new_game(ALICE, MATCH, 255, BOB, [1u8; 32], [2u8; 32], 10, 7);
    assert_eq!(request.kind, ComputationKind::InitPlayerShipFleetLocation);
    let first = ComputationOutputs::Bytes(sealed(&init_player_ship_fleet_location(), 7));
    init_player_ship_fleet_location_callback(&mut game, MATCH, &first).unwrap();

    let request = place_ships_ix(&game, MATCH, ALICE, 11, 100, [0u8; 32]).unwrap();
    assert_eq!(request.args[3], Argument::PlaintextU128(7));
    let output = network_places(&game, true, column(0), 8);
    place_ships_callback(&mut game, MATCH, &output).unwrap();

    let request = place_ships_ix(&game, MATCH, BOB, 12, 101, [0u8; 32]).unwrap();
    assert_eq!(request.args[3], Argument::PlaintextU128(8));
    let output = network_places(&game, false, column(4), 9);
    place_ships_callback(&mut game, MATCH, &output).unwrap();
    game
}

#[test]
fn both_placements_end_up_in_the_stored_fleet() {
    let game = placed_match();
    assert_eq!(game.game_state, GameState::PlacingShips);
    assert_eq!(game.fleet_state_nonce, 9u128.to_le_bytes());
    let fleet = opened(&game);
    assert_eq!(fleet.player_1, column(0));
    assert_eq!(fleet.player_2, column(4));
    assert_eq!((game.player_1_ships_left, game.player_2_ships_left), (17, 17));
}

#[test]
fn no_guess_is_admitted_while_the_match_is_in_placement() {
    let game = placed_match();
    for payer in [ALICE, BOB] {
        assert_eq!(
            take_turn_ix(&game, MATCH, payer, 13, 102, [0u8; 32]),
            Err(BattleShipErrorCode::InvalidTurn)
        );
    }
}

#[test]
fn a_match_of_distinct_fleets_ends_when_one_fleet_is_destroyed() {
    let mut game = placed_match();
    game.game_state = GameState::Player1Turn;
    let targets = column(4);
    let mut nonce = 20u128;
    let mut next_target = 0;
    while game.game_state != GameState::Finished {
        let alice_guesses = game.game_state == GameState::Player1Turn;
        let (payer, guess) = if alice_guesses {
            next_target += 1;
            (ALICE, targets[next_target - 1])
        } else {
            (BOB, [9, 9])
        };
        let request = take_turn_ix(&game, MATCH, payer, nonce as u64, 5, [0u8; 32]).unwrap();
        assert_eq!(request.kind, ComputationKind::TakeTurn);
        assert_eq!(
            request.args[3],
            Argument::PlaintextU128(u128::from_le_bytes(game.fleet_state_nonce))
        );
        let other = if alice_guesses { BOB } else { ALICE };
        assert_eq!(
            take_turn_ix(&game, MATCH, other, 0, 0, [0u8; 32]),
            Err(BattleShipErrorCode::InvalidTurn)
        );

        let output = network_resolves(&game, alice_guesses, guess, nonce);
        let event = take_turn_callback(&mut game, MATCH, &output).unwrap();
        assert_eq!(event.was_hit, alice_guesses);
        assert_eq!(game.fleet_state_nonce, nonce.to_le_bytes());
        let fleet = opened(&game);
        assert_eq!(game.player_1_ships_left, cells_on_board(&fleet.player_1));
        assert_eq!(game.player_2_ships_left, cells_on_board(&fleet.player_2));
        assert!(game.is_well_formed());
        nonce += 1;
    }
    assert_eq!(next_target, 17);
    assert_eq!(game.player_1_ships_left, 17);
    assert_eq!(game.player_2_ships_left, 0);
    assert_eq!(opened(&game).player_2, [[255u8, 255u8]; 17]);
    assert_eq!(opened(&game).player_1, column(0));
    assert_eq!(
        take_turn_ix(&game, MATCH, BOB, 0, 0, [0u8; 32]),
        Err(BattleShipErrorCode::InvalidTurn)
    );
}
