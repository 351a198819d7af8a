use confidential_battleship_game::coordinator::{
    init_player_ship_fleet_location_callback, new_game, place_ships_callback, place_ships_ix,
    take_turn_callback, take_turn_ix,
};
use confidential_battleship_game::error::BattleShipErrorCode;
use confidential_battleship_game::events::{GameCreated, ShipsPlaced, TurnResult};
use confidential_battleship_game::gateway::{
    Argument, CallbackAccount, ComputationKind, ComputationOutputs,
};
use confidential_battleship_game::keys::Pubkey;
use confidential_battleship_game::record::{GameData, GameState, STARTING_SHIPS};

const PLAYER_1: Pubkey = Pubkey([1u8; 32]);
const PLAYER_2: Pubkey = Pubkey([2u8; 32]);
const GAME_PDA: Pubkey = Pubkey([7u8; 32]);

fn fresh_game() -> GameData {
    new_game(PLAYER_1, GAME_PDA, 254, PLAYER_2, [11u8; 32], [22u8; 32], 1, 1000).0
}

fn game_in(state: GameState, ships_1: u8, ships_2: u8) -> GameData {
    let mut game = fresh_game();
    game.game_state = state;
    game.player_1_ships_left = ships_1;
    game.player_2_ships_left = ships_2;
    game
}

/// The result of an initialize or place-ships computation: a nonce of
/// `nonce_byte`s and a fleet of `fleet_byte`s.
fn fleet_payload(nonce_byte: u8, fleet_byte: u8) -> ComputationOutputs {
    let mut bytes = vec![nonce_byte; 16];
    bytes.extend(vec![fleet_byte; 1088]);
    ComputationOutputs::Bytes(bytes)
}

/// The result of a take-turn computation.
fn turn_payload(flag: u8, nonce_byte: u8, fleet_byte: u8) -> ComputationOutputs {
    let mut bytes = vec![flag];
    bytes.extend(vec![nonce_byte; 16]);
    bytes.extend(vec![fleet_byte; 1088]);
    ComputationOutputs::Bytes(bytes)
}

#[test]
fn a_new_game_starts_in_placement_with_full_fleets() {
    let (game, request) =
        new_game(PLAYER_1, GAME_PDA, 254, PLAYER_2, [11u8; 32], [22u8; 32], 31, 0xfeed);
    assert_eq!(STARTING_SHIPS, 17);
    assert_eq!(
        game,
        GameData {
            bump: 254,
            player_1: PLAYER_1,
            player_2: PLAYER_2,
            player_1_arcium_pubkey: [11u8; 32],
            player_2_arcium_pubkey: [22u8; 32],
            game_state: GameState::PlacingShips,
            player_1_ships_left: 17,
            player_2_ships_left: 17,
            fleet_state_nonce: [0u8; 16],
            encrypted_fleet_state: [[0u8; 32]; 34],
        }
    );
    assert!(game.is_well_formed());
    assert_eq!(request.kind, ComputationKind::InitPlayerShipFleetLocation);
    assert_eq!(request.computation_offset, 31);
    assert_eq!(request.args, vec![Argument::PlaintextU128(0xfeed)]);
    assert_eq!(
        request.callback_accs,
        vec![CallbackAccount { pubkey: GAME_PDA, is_writable: true }]
    );
}

#[test]
fn the_first_fleet_is_stored_with_its_nonce() {
    let mut game = fresh_game();
    let event =
        init_player_ship_fleet_location_callback(&mut game, GAME_PDA, &fleet_payload(5, 6));
    assert_eq!(
        event,
        Ok(GameCreated { game_pda: GAME_PDA, player_1: PLAYER_1, player_2: PLAYER_2 })
    );
    let mut expected = fresh_game();
    expected.fleet_state_nonce = [5u8; 16];
    expected.encrypted_fleet_state = [[6u8; 32]; 34];
    assert_eq!(game, expected);
}

#[test]
fn placements_are_stored_and_the_phase_stays() {
    let mut game = fresh_game();
    init_player_ship_fleet_location_callback(&mut game, GAME_PDA, &fleet_payload(1, 1)).unwrap();

    let first = place_ships_ix(&game, GAME_PDA, PLAYER_1, 2, 50, [0xa1; 32]).unwrap();
    assert_eq!(first.kind, ComputationKind::PlaceShips);
    assert_eq!(first.args[0], Argument::ArcisPubkey([11u8; 32]));
    assert_eq!(first.args[3], Argument::PlaintextU128(u128::from_le_bytes([1u8; 16])));
    let event = place_ships_callback(&mut game, GAME_PDA, &fleet_payload(2, 3));
    assert_eq!(event, Ok(ShipsPlaced { game_pda: GAME_PDA }));
    assert_eq!(game.game_state, GameState::PlacingShips);
    assert_eq!(game.fleet_state_nonce, [2u8; 16]);
    assert_eq!(game.encrypted_fleet_state, [[3u8; 32]; 34]);

    let second = place_ships_ix(&game, GAME_PDA, PLAYER_2, 3, 51, [0xa2; 32]).unwrap();
    assert_eq!(second.args[0], Argument::ArcisPubkey([22u8; 32]));
    assert_eq!(second.args[3], Argument::PlaintextU128(u128::from_le_bytes([2u8; 16])));
    let event = place_ships_callback(&mut game, GAME_PDA, &fleet_payload(4, 9));
    assert_eq!(event, Ok(ShipsPlaced { game_pda: GAME_PDA }));

    let mut expected = fresh_game();
    expected.fleet_state_nonce = [4u8; 16];
    expected.encrypted_fleet_state = [[9u8; 32]; 34];
    assert_eq!(game, expected);
    assert_eq!(game.game_state, GameState::PlacingShips);
    assert_eq!(game.player_1_ships_left, 17);
    assert_eq!(game.player_2_ships_left, 17);
}

#[test]
fn a_hit_by_player_1_costs_player_2_a_ship_and_passes_the_turn() {
    let mut game = game_in(GameState::Player1Turn, 17, 17);
    let event = take_turn_callback(&mut game, GAME_PDA, &turn_payload(1, 8, 9));
    assert_eq!(
        event,
        Ok(TurnResult {
            game_pda: GAME_PDA,
            was_hit: true,
            ships_left_player_1: 17,
            ships_left_player_2: 16,
            new_game_state: GameState::Player2Turn,
        })
    );
    let mut expected = game_in(GameState::Player2Turn, 17, 16);
    expected.fleet_state_nonce = [8u8; 16];
    expected.encrypted_fleet_state = [[9u8; 32]; 34];
    assert_eq!(game, expected);
}

#[test]
fn a_hit_by_player_2_costs_player_1_a_ship_and_passes_the_turn() {
    let mut game = game_in(GameState::Player2Turn, 9, 4);
    let event = take_turn_callback(&mut game, GAME_PDA, &turn_payload(1, 0, 0)).unwrap();
    assert!(event.was_hit);
    assert_eq!(game.player_1_ships_left, 8);
    assert_eq!(game.player_2_ships_left, 4);
    assert_eq!(game.game_state, GameState::Player1Turn);
}

#[test]
fn the_last_hit_on_player_2_finishes_the_game() {
    let mut game = game_in(GameState::Player1Turn, 12, 1);
    let event = take_turn_callback(&mut game, GAME_PDA, &turn_payload(1, 3, 3));
    assert_eq!(
        event,
        Ok(TurnResult {
            game_pda: GAME_PDA,
            was_hit: true,
            ships_left_player_1: 12,
            ships_left_player_2: 0,
            new_game_state: GameState::Finished,
        })
    );
    assert_eq!(game.player_2_ships_left, 0);
    assert_eq!(game.game_state, GameState::Finished);
    assert_eq!(game.fleet_state_nonce, [3u8; 16]);
}

#[test]
fn the_last_hit_on_player_1_finishes_the_game() {
    let mut game = game_in(GameState::Player2Turn, 1, 17);
    take_turn_callback(&mut game, GAME_PDA, &turn_payload(1, 3, 3)).unwrap();
    assert_eq!(game.player_1_ships_left, 0);
    assert_eq!(game.player_2_ships_left, 17);
    assert_eq!(game.game_state, GameState::Finished);
}

#[test]
fn a_miss_keeps_the_counts_and_passes_the_turn() {
    let mut game = game_in(GameState::Player1Turn, 6, 1);
    let event = take_turn_callback(&mut game, GAME_PDA, &turn_payload(0, 4, 4)).unwrap();
    assert!(!event.was_hit);
    assert_eq!(event.new_game_state, GameState::Player2Turn);
    assert_eq!((game.player_1_ships_left, game.player_2_ships_left), (6, 1));
    assert_eq!(game.game_state, GameState::Player2Turn);
    assert_eq!(game.fleet_state_nonce, [4u8; 16]);

    take_turn_callback(&mut game, GAME_PDA, &turn_payload(0, 5, 5)).unwrap();
    assert_eq!((game.player_1_ships_left, game.player_2_ships_left), (6, 1));
    assert_eq!(game.game_state, GameState::Player1Turn);
    assert_eq!(game.fleet_state_nonce, [5u8; 16]);
}

#[test]
fn a_flag_other_than_one_counts_as_a_miss() {
    let mut game = game_in(GameState::Player2Turn, 1, 1);
    let event = take_turn_callback(&mut game, GAME_PDA, &turn_payload(2, 0, 0)).unwrap();
    assert!(!event.was_hit);
    assert_eq!((game.player_1_ships_left, game.player_2_ships_left), (1, 1));
    assert_eq!(game.game_state, GameState::Player1Turn);
}

#[test]
fn ship_counts_only_ever_fall_until_the_game_is_finished() {
    let mut game = game_in(GameState::Player1Turn, 17, 17);
    let mut hits_on_player_2 = 0u8;
    while game.game_state != GameState::Finished {
        let before = game;
        let player_1_attacks = game.game_state == GameState::Player1Turn;
        let flag = if player_1_attacks { 1 } else { 0 };
        take_turn_callback(&mut game, GAME_PDA, &turn_payload(flag, 0, 0)).unwrap();
        assert!(game.is_well_formed());
        assert!(game.player_1_ships_left <= before.player_1_ships_left);
        assert!(game.player_2_ships_left <= before.player_2_ships_left);
        if player_1_attacks {
            hits_on_player_2 += 1;
            assert_eq!(game.player_2_ships_left, 17 - hits_on_player_2);
        }
        assert_eq!(
            game.game_state == GameState::Finished,
            game.player_1_ships_left == 0 || game.player_2_ships_left == 0
        );
    }
    assert_eq!(hits_on_player_2, 17);
    assert_eq!(game.player_1_ships_left, 17);
    assert_eq!(game.player_2_ships_left, 0);
}

#[test]
fn an_aborted_computation_leaves_the_record_alone() {
    let mut game = game_in(GameState::Player1Turn, 3, 3);
    let before = game;
    assert_eq!(
        init_player_ship_fleet_location_callback(&mut game, GAME_PDA, &ComputationOutputs::Abort),
        Err(BattleShipErrorCode::AbortedComputation)
    );
    assert_eq!(game, before);
    assert_eq!(
        place_ships_callback(&mut game, GAME_PDA, &ComputationOutputs::Abort),
        Err(BattleShipErrorCode::AbortedComputation)
    );
    assert_eq!(game, before);
    assert_eq!(
        take_turn_callback(&mut game, GAME_PDA, &ComputationOutputs::Abort),
        Err(BattleShipErrorCode::AbortedComputation)
    );
    assert_eq!(game, before);
}

#[test]
fn a_malformed_result_leaves_the_record_alone() {
    let mut game = game_in(GameState::Player1Turn, 3, 3);
    let before = game;
    assert_eq!(
        init_player_ship_fleet_location_callback(&mut game, GAME_PDA, &turn_payload(1, 1, 1)),
        Err(BattleShipErrorCode::MalformedPayload)
    );
    assert_eq!(game, before);
    assert_eq!(
        place_ships_callback(&mut game, GAME_PDA, &ComputationOutputs::Bytes(vec![1u8; 1103])),
        Err(BattleShipErrorCode::MalformedPayload)
    );
    assert_eq!(game, before);
    assert_eq!(
        take_turn_callback(&mut game, GAME_PDA, &fleet_payload(1, 1)),
        Err(BattleShipErrorCode::MalformedPayload)
    );
    assert_eq!(game, before);
    assert_eq!(
        take_turn_callback(&mut game, GAME_PDA, &ComputationOutputs::Bytes(Vec::new())),
        Err(BattleShipErrorCode::MalformedPayload)
    );
    assert_eq!(game, before);
}

#[test]
fn a_turn_result_outside_of_a_turn_is_refused() {
    for (state, ships_1, ships_2) in [
        (GameState::PlacingShips, 17, 17),
        (GameState::Finished, 0, 5),
        (GameState::Finished, 5, 0),
    ] {
        let mut game = game_in(state, ships_1, ships_2);
        let before = game;
        assert_eq!(
            take_turn_callback(&mut game, GAME_PDA, &turn_payload(1, 9, 9)),
            Err(BattleShipErrorCode::InvalidTurn)
        );
        assert_eq!(game, before);
        assert_eq!(
            take_turn_callback(&mut game, GAME_PDA, &turn_payload(0, 9, 9)),
            Err(BattleShipErrorCode::InvalidTurn)
        );
        assert_eq!(game, before);
    }
}

#[test]
fn an_abort_is_reported_before_anything_else() {
    let mut game = game_in(GameState::Finished, 0, 5);
    assert_eq!(
        take_turn_callback(&mut game, GAME_PDA, &ComputationOutputs::Abort),
        Err(BattleShipErrorCode::AbortedComputation)
    );
    assert_eq!(
        take_turn_callback(&mut game, GAME_PDA, &ComputationOutputs::Bytes(vec![1u8; 3])),
        Err(BattleShipErrorCode::MalformedPayload)
    );
}

#[test]
fn a_finished_game_accepts_no_move() {
    let game = game_in(GameState::Finished, 4, 0);
    for payer in [PLAYER_1, PLAYER_2] {
        assert_eq!(
            place_ships_ix(&game, GAME_PDA, payer, 1, 1, [0u8; 32]),
            Err(BattleShipErrorCode::InvalidGameState)
        );
        assert_eq!(
            take_turn_ix(&game, GAME_PDA, payer, 1, 1, [0u8; 32]),
            Err(BattleShipErrorCode::InvalidTurn)
        );
    }
    let stranger = Pubkey([3u8; 32]);
    assert_eq!(
        place_ships_ix(&game, GAME_PDA, stranger, 1, 1, [0u8; 32]),
        Err(BattleShipErrorCode::UnauthorizedPlayer)
    );
    assert_eq!(
        take_turn_ix(&game, GAME_PDA, stranger, 1, 1, [0u8; 32]),
        Err(BattleShipErrorCode::InvalidTurn)
    );
}

#[test]
fn a_guess_is_queued_with_the_current_fleet() {
    let mut game = game_in(GameState::Player2Turn, 17, 17);
    game.fleet_state_nonce = [0u8; 16];
    game.fleet_state_nonce[0] = 42;
    let request = take_turn_ix(&game, GAME_PDA, PLAYER_2, 900, 31337, [0x77; 32]).unwrap();
    assert_eq!(request.kind, ComputationKind::TakeTurn);
    assert_eq!(request.computation_offset, 900);
    assert_eq!(
        request.args,
        vec![
            Argument::ArcisPubkey([22u8; 32]),
            Argument::PlaintextU128(31337),
            Argument::EncryptedU8([0x77; 32]),
            Argument::PlaintextU128(42),
            Argument::Account(GAME_PDA, 156, 1088),
        ]
    );
    assert_eq!(
        request.callback_accs,
        vec![CallbackAccount { pubkey: GAME_PDA, is_writable: true }]
    );
}

#[test]
fn well_formedness_of_records() {
    assert!(game_in(GameState::PlacingShips, 17, 17).is_well_formed());
    assert!(game_in(GameState::Player1Turn, 1, 17).is_well_formed());
    assert!(game_in(GameState::Finished, 0, 17).is_well_formed());
    assert!(game_in(GameState::Finished, 3, 0).is_well_formed());
    assert!(!game_in(GameState::Finished, 3, 3).is_well_formed());
    assert!(!game_in(GameState::Player2Turn, 0, 3).is_well_formed());
    assert!(!game_in(GameState::PlacingShips, 18, 3).is_well_formed());
    assert!(!game_in(GameState::PlacingShips, 3, 18).is_well_formed());
}
