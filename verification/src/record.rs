//! The stored record of a match, its mathematical model and its invariant.

use crate::gateway::{ciphertext_bytes, FleetUpdate, FleetUpdateView};
use crate::keys::Pubkey;
use vstd::prelude::*;

verus! {

/// Ship cells that each player starts with.
pub const STARTING_SHIPS: u8 = 17;

/// The phase of a match.
#[derive(Clone, Copy, Debug, PartialEq, Eq, Structural)]
pub enum GameState {
    /// Both players are placing their fleets. Every match starts here.
    PlacingShips,
    /// Player 1 may guess.
    Player1Turn,
    /// Player 2 may guess.
    Player2Turn,
    /// One fleet is gone. No further move is accepted.
    Finished,
}

impl GameState {
    /// Whether a guess may be submitted in this phase.
    pub open spec fn is_turn(self) -> bool {
        self == GameState::Player1Turn || self == GameState::Player2Turn
    }

    /// The phase in which the other player guesses.
    pub open spec fn flipped(self) -> GameState
        recommends
            self.is_turn(),
    {
        if self == GameState::Player1Turn {
            GameState::Player2Turn
        } else {
            GameState::Player1Turn
        }
    }
}

/// The persisted record of one match.
///
/// The encrypted fleet and its nonce are only ever replaced together, from
/// one computation result.
#[derive(Clone, Copy, Debug, PartialEq, Eq)]
pub struct GameData {
    pub bump: u8,
    pub player_1: Pubkey,
    pub player_2: Pubkey,
    /// Key under which player 1 encrypts the moves it submits.
    pub player_1_arcium_pubkey: [u8; 32],
    /// Key under which player 2 encrypts the moves it submits.
    pub player_2_arcium_pubkey: [u8; 32],
    pub game_state: GameState,
    pub player_1_ships_left: u8,
    pub player_2_ships_left: u8,
    /// Nonce under which `encrypted_fleet_state` is valid.
    pub fleet_state_nonce: [u8; 16],
    /// One ciphertext unit for each of the 17 slots of player 1, then of player 2.
    pub encrypted_fleet_state: [[u8; 32]; 34],
}

/// A match as plain mathematical values.
pub struct GameView {
    pub bump: u8,
    pub player_1: Seq<u8>,
    pub player_2: Seq<u8>,
    pub player_1_arcium_pubkey: Seq<u8>,
    pub player_2_arcium_pubkey: Seq<u8>,
    pub game_state: GameState,
    pub player_1_ships_left: nat,
    pub player_2_ships_left: nat,
    pub fleet_state_nonce: Seq<u8>,
    pub encrypted_fleet_state: Seq<u8>,
}

impl View for GameData {
    type V = GameView;

    open spec fn view(&self) -> GameView {
        GameView {
            bump: self.bump,
            player_1: self.player_1@,
            player_2: self.player_2@,
            player_1_arcium_pubkey: self.player_1_arcium_pubkey@,
            player_2_arcium_pubkey: self.player_2_arcium_pubkey@,
            game_state: self.game_state,
            player_1_ships_left: self.player_1_ships_left as nat,
            player_2_ships_left: self.player_2_ships_left as nat,
            fleet_state_nonce: self.fleet_state_nonce@,
            encrypted_fleet_state: ciphertext_bytes(self.encrypted_fleet_state),
        }
    }
}

impl GameView {
    /// What holds of every match at every moment: no player has more ships
    /// than it started with, and the match is finished exactly when one
    /// player has none left.
    pub open spec fn wf(self) -> bool {
        &&& self.player_1_ships_left <= STARTING_SHIPS
        &&& self.player_2_ships_left <= STARTING_SHIPS
        &&& (self.game_state == GameState::Finished <==> (self.player_1_ships_left == 0
            || self.player_2_ships_left == 0))
    }

    /// A match right after its creation, before any fleet data has arrived.
    pub open spec fn created(
        bump: u8,
        player_1: Seq<u8>,
        player_2: Seq<u8>,
        player_1_arcium_pubkey: Seq<u8>,
        player_2_arcium_pubkey: Seq<u8>,
    ) -> GameView {
        GameView {
            bump,
            player_1,
            player_2,
            player_1_arcium_pubkey,
            player_2_arcium_pubkey,
            game_state: GameState::PlacingShips,
            player_1_ships_left: STARTING_SHIPS as nat,
            player_2_ships_left: STARTING_SHIPS as nat,
            fleet_state_nonce: Seq::new(16, |i: int| 0u8),
            encrypted_fleet_state: Seq::new(1088, |i: int| 0u8),
        }
    }

    /// The match with its encrypted fleet and nonce replaced, both at once.
    pub open spec fn with_fleet(self, update: FleetUpdateView) -> GameView {
        GameView {
            fleet_state_nonce: update.nonce,
            encrypted_fleet_state: update.encrypted_fleet,
            ..self
        }
    }

    /// The match after the guess of the player whose turn it is has been
    /// resolved. A hit costs the defender one ship. The match is finished
    /// when that was the defender's last one; otherwise the turn passes on.
    pub open spec fn after_turn(self, was_hit: bool) -> GameView
        recommends
            self.game_state.is_turn(),
    {
        let player_1_attacks = self.game_state == GameState::Player1Turn;
        let player_1_ships_left = if was_hit && !player_1_attacks {
            (self.player_1_ships_left - 1) as nat
        } else {
            self.player_1_ships_left
        };
        let player_2_ships_left = if was_hit && player_1_attacks {
            (self.player_2_ships_left - 1) as nat
        } else {
            self.player_2_ships_left
        };
        let game_state = if player_1_ships_left == 0 || player_2_ships_left == 0 {
            GameState::Finished
        } else {
            self.game_state.flipped()
        };
        GameView { game_state, player_1_ships_left, player_2_ships_left, ..self }
    }
}

impl GameData {
    /// A record is determined by its view: two records that look the same
    /// as mathematical values are the same record.
    pub proof fn lemma_view_determines_record(self, other: GameData)
        requires
            self@ == other@,
        ensures
            self == other,
    {
        self.player_1.lemma_view_injective(other.player_1);
        self.player_2.lemma_view_injective(other.player_2);
        assert(self.player_1_arcium_pubkey@ == other.player_1_arcium_pubkey@);
        assert(self.player_1_arcium_pubkey =~= other.player_1_arcium_pubkey);
        assert(self.player_2_arcium_pubkey@ == other.player_2_arcium_pubkey@);
        assert(self.player_2_arcium_pubkey =~= other.player_2_arcium_pubkey);
        assert(self.fleet_state_nonce@ == other.fleet_state_nonce@);
        assert(self.fleet_state_nonce =~= other.fleet_state_nonce);
        assert forall|r: int, c: int|
            0 <= r < 34 && 0 <= c < 32 implies #[trigger] self.encrypted_fleet_state[r][c]
            == other.encrypted_fleet_state[r][c] by {
            let k = 32 * r + c;
            assert(ciphertext_bytes(self.encrypted_fleet_state)[k]
                == self.encrypted_fleet_state[r][c]);
            assert(ciphertext_bytes(other.encrypted_fleet_state)[k]
                == other.encrypted_fleet_state[r][c]);
        }
        assert forall|r: int| 0 <= r < 34 implies self.encrypted_fleet_state[r]
            == other.encrypted_fleet_state[r] by {
            assert(self.encrypted_fleet_state[r] =~= other.encrypted_fleet_state[r]);
        }
        assert(self.encrypted_fleet_state =~= other.encrypted_fleet_state);
    }

    /// The key under which the given player encrypts the moves it submits.
    pub open spec fn arcium_pubkey_of(&self, is_player_1: bool) -> [u8; 32] {
        if is_player_1 {
            self.player_1_arcium_pubkey
        } else {
            self.player_2_arcium_pubkey
        }
    }

    /// Whether the record satisfies the invariant of a match.
    pub fn is_well_formed(&self) -> (ok: bool)
        ensures
            ok == self@.wf(),
    {
        let finished = match self.game_state {
            GameState::Finished => true,
            _ => false,
        };
        self.player_1_ships_left <= STARTING_SHIPS && self.player_2_ships_left <= STARTING_SHIPS
            && finished == (self.player_1_ships_left == 0 || self.player_2_ships_left == 0)
    }

    /// Replaces the encrypted fleet and its nonce, and nothing else.
    pub fn store_fleet(&mut self, update: FleetUpdate)
        ensures
            *final(self) == (GameData {
                fleet_state_nonce: update.nonce,
                encrypted_fleet_state: update.encrypted_fleet,
                ..*old(self)
            }),
            final(self)@ == old(self)@.with_fleet(update@),
    {
        self.fleet_state_nonce = update.nonce;
        self.encrypted_fleet_state = update.encrypted_fleet;
    }
}

} // verus!
