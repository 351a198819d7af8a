//! The gateway to the compute network: the requests that go out, with their
//! arguments in the order in which the computations take them, and the
//! decoding of the byte strings that come back.

use crate::error::BattleShipErrorCode;
use crate::keys::Pubkey;
use vstd::bytes::{spec_u128_from_le_bytes, u128_from_le_bytes};
use vstd::prelude::*;

verus! {

/// Bytes of the nonce that travels with an encrypted fleet.
pub const NONCE_LEN: usize = 16;

/// Bytes of one ciphertext unit, which holds one fleet slot.
pub const CIPHERTEXT_LEN: usize = 32;

/// Ciphertext units of an encrypted fleet: 17 slots for each of the two players.
pub const FLEET_SLOTS: usize = 34;

/// Bytes of an encrypted fleet.
pub const FLEET_BYTES: usize = 1088;

/// Bytes of the result of an initialize or place-ships computation.
pub const FLEET_PAYLOAD_LEN: usize = 1104;

/// Bytes of the result of a take-turn computation.
pub const TURN_PAYLOAD_LEN: usize = 1105;

/// Where the encrypted fleet starts within the stored record of a match.
/// In front of it stand the 8 bytes that tag the record, then the bump (1),
/// the two players (32 each), their two encryption keys (32 each), the phase
/// (1), the two ship counts (1 each) and the nonce (16).
pub const FLEET_DATA_OFFSET: u32 = 8 + 1 + 32 + 32 + 32 + 32 + 1 + 1 + 1 + 16;

/// Bytes of the encrypted fleet within the stored record of a match: 34
/// ciphertext units of 32 bytes.
pub const FLEET_DATA_LEN: u32 = 34 * 32;

/// The three computations that the compute network runs for a match.
#[derive(Clone, Copy, Debug, PartialEq, Eq, Structural)]
pub enum ComputationKind {
    /// Produces the encrypted fleet in which every slot is unset.
    InitPlayerShipFleetLocation,
    /// Replaces the 17 slots of the submitting player.
    PlaceShips,
    /// Tests a guess against the opponent's slots.
    TakeTurn,
}

/// The number under which the compute network files the definition of the
/// computation with the given name.
pub uninterp spec fn comp_def_offset_of(name: Seq<char>) -> u32;

/// Calls `arcium_anchor::comp_def_offset`, which hashes the name with
/// SHA-256 and reads the first four bytes of the digest as a little-endian
/// number. Nothing of this is proved here. The contract only gives the
/// number its name, which is sound because the number depends on the name
/// alone. Long names are left out: the hash counts its input in bits, and
/// the count must not overflow.
#[verifier::external_body]
fn comp_def_offset_by_name(name: &str) -> (offset: u32)
    requires
        name@.len() <= 64,
    ensures
        offset == comp_def_offset_of(name@),
{
    arcium_anchor::comp_def_offset(name)
}

impl ComputationKind {
    /// The name under which the computation is compiled and registered.
    pub open spec fn circuit_name(self) -> Seq<char> {
        match self {
            ComputationKind::InitPlayerShipFleetLocation => "init_player_ship_fleet_location"@,
            ComputationKind::PlaceShips => "place_ships"@,
            ComputationKind::TakeTurn => "take_turn"@,
        }
    }

    /// The name under which the computation is compiled and registered.
    pub fn name(&self) -> (name: &'static str)
        ensures
            name@ == self.circuit_name(),
            name@.len() <= 64,
    {
        proof {
            reveal_strlit("init_player_ship_fleet_location");
            reveal_strlit("place_ships");
            reveal_strlit("take_turn");
        }
        match self {
            ComputationKind::InitPlayerShipFleetLocation => "init_player_ship_fleet_location",
            ComputationKind::PlaceShips => "place_ships",
            ComputationKind::TakeTurn => "take_turn",
        }
    }

    /// The tag that tells the compute network which computation a request
    /// asks for: the number under which the definition of the computation is
    /// filed.
    pub fn comp_def_offset(&self) -> (offset: u32)
        ensures
            offset == comp_def_offset_of(self.circuit_name()),
    {
        comp_def_offset_by_name(self.name())
    }
}

/// One argument of a computation request.
#[derive(Clone, Copy, Debug, PartialEq, Eq)]
pub enum Argument {
    /// A 128-bit value in the clear.
    PlaintextU128(u128),
    /// One ciphertext unit that a client has encrypted.
    EncryptedU8([u8; 32]),
    /// The key under which the client's ciphertext was encrypted.
    ArcisPubkey([u8; 32]),
    /// A region of a stored record: its address, byte offset and byte length.
    Account(Pubkey, u32, u32),
}

/// A record that the callback of a computation may touch.
#[derive(Clone, Copy, Debug, PartialEq, Eq)]
pub struct CallbackAccount {
    pub pubkey: Pubkey,
    pub is_writable: bool,
}

/// A computation request, ready to be handed to the compute network.
#[derive(Clone, Debug, PartialEq, Eq)]
pub struct QueuedComputation {
    pub kind: ComputationKind,
    /// Chosen by the caller; identifies the request.
    pub computation_offset: u64,
    /// The arguments, in the order in which the computation takes them.
    pub args: Vec<Argument>,
    pub callback_accs: Vec<CallbackAccount>,
}

/// A computation request as plain mathematical values.
pub struct QueuedComputationView {
    pub kind: ComputationKind,
    pub computation_offset: u64,
    pub args: Seq<Argument>,
    pub callback_accs: Seq<CallbackAccount>,
}

impl View for QueuedComputation {
    type V = QueuedComputationView;

    open spec fn view(&self) -> QueuedComputationView {
        QueuedComputationView {
            kind: self.kind,
            computation_offset: self.computation_offset,
            args: self.args@,
            callback_accs: self.callback_accs@,
        }
    }
}

/// The argument of the initialize computation: the nonce under which the
/// network encrypts the first fleet.
pub open spec fn init_args(mxe_nonce: u128) -> Seq<Argument> {
    seq![Argument::PlaintextU128(mxe_nonce)]
}

/// The arguments of a place-ships or take-turn computation. First the
/// player's input: the player's key, the nonce of the input, the input's
/// ciphertext. Then the current fleet: its nonce as a little-endian number
/// and the region of the match's record that holds it.
pub open spec fn move_args(
    player_arcium_pubkey: [u8; 32],
    input_nonce: u128,
    ciphertext: [u8; 32],
    fleet_state_nonce: [u8; 16],
    game_pda: Pubkey,
) -> Seq<Argument> {
    seq![
        Argument::ArcisPubkey(player_arcium_pubkey),
        Argument::PlaintextU128(input_nonce),
        Argument::EncryptedU8(ciphertext),
        Argument::PlaintextU128(spec_u128_from_le_bytes(fleet_state_nonce@)),
        Argument::Account(game_pda, FLEET_DATA_OFFSET, FLEET_DATA_LEN),
    ]
}

/// The request for a computation whose callback may write the match's record
/// and no other.
pub open spec fn computation_for(
    kind: ComputationKind,
    computation_offset: u64,
    args: Seq<Argument>,
    game_pda: Pubkey,
) -> QueuedComputationView {
    QueuedComputationView {
        kind,
        computation_offset,
        args,
        callback_accs: seq![CallbackAccount { pubkey: game_pda, is_writable: true }],
    }
}

/// Builds the request for the initialize computation.
pub fn queue_init(computation_offset: u64, mxe_nonce: u128, game_pda: Pubkey) -> (request:
    QueuedComputation)
    ensures
        request@ == computation_for(
            ComputationKind::InitPlayerShipFleetLocation,
            computation_offset,
            init_args(mxe_nonce),
            game_pda,
        ),
{
    let mut args: Vec<Argument> = Vec::new();
    args.push(Argument::PlaintextU128(mxe_nonce));
    let mut callback_accs: Vec<CallbackAccount> = Vec::new();
    callback_accs.push(CallbackAccount { pubkey: game_pda, is_writable: true });
    QueuedComputation {
        kind: ComputationKind::InitPlayerShipFleetLocation,
        computation_offset,
        args,
        callback_accs,
    }
}

/// Builds the request for a place-ships or take-turn computation.
pub fn queue_move(
    kind: ComputationKind,
    computation_offset: u64,
    player_arcium_pubkey: [u8; 32],
    input_nonce: u128,
    ciphertext: [u8; 32],
    fleet_state_nonce: &[u8; 16],
    game_pda: Pubkey,
) -> (request: QueuedComputation)
    ensures
        request@ == computation_for(
            kind,
            computation_offset,
            move_args(player_arcium_pubkey, input_nonce, ciphertext, *fleet_state_nonce, game_pda),
            game_pda,
        ),
{
    let fleet_nonce = u128_from_le_bytes(fleet_state_nonce.as_slice());
    let mut args: Vec<Argument> = Vec::new();
    args.push(Argument::ArcisPubkey(player_arcium_pubkey));
    args.push(Argument::PlaintextU128(input_nonce));
    args.push(Argument::EncryptedU8(ciphertext));
    args.push(Argument::PlaintextU128(fleet_nonce));
    args.push(Argument::Account(game_pda, FLEET_DATA_OFFSET, FLEET_DATA_LEN));
    let mut callback_accs: Vec<CallbackAccount> = Vec::new();
    callback_accs.push(CallbackAccount { pubkey: game_pda, is_writable: true });
    assert(args@ =~= move_args(
        player_arcium_pubkey,
        input_nonce,
        ciphertext,
        *fleet_state_nonce,
        game_pda,
    ));
    QueuedComputation { kind, computation_offset, args, callback_accs }
}

/// What the compute network hands to a callback.
#[derive(Clone, Debug, PartialEq, Eq)]
pub enum ComputationOutputs {
    /// The raw result of a computation that ran to its end.
    Bytes(Vec<u8>),
    /// The computation was aborted.
    Abort,
}

/// The bytes of an encrypted fleet in storage order: unit after unit.
pub open spec fn ciphertext_bytes(units: [[u8; 32]; 34]) -> Seq<u8> {
    Seq::new(1088, |k: int| units[k / 32][k % 32])
}

/// A new encrypted fleet together with the nonce under which it is valid.
#[derive(Clone, Copy, Debug, PartialEq, Eq)]
pub struct FleetUpdate {
    pub nonce: [u8; 16],
    pub encrypted_fleet: [[u8; 32]; 34],
}

/// A fleet update as two byte strings, of 16 and of 1088 bytes.
pub struct FleetUpdateView {
    pub nonce: Seq<u8>,
    pub encrypted_fleet: Seq<u8>,
}

impl View for FleetUpdate {
    type V = FleetUpdateView;

    open spec fn view(&self) -> FleetUpdateView {
        FleetUpdateView {
            nonce: self.nonce@,
            encrypted_fleet: ciphertext_bytes(self.encrypted_fleet),
        }
    }
}

/// The decoded result of a take-turn computation.
#[derive(Clone, Copy, Debug, PartialEq, Eq)]
pub struct TurnOutcome {
    /// The one value that the computation reveals in the clear.
    pub was_hit: bool,
    pub update: FleetUpdate,
}

/// The decoded result of a take-turn computation as plain mathematical
/// values.
pub struct TurnOutcomeView {
    pub was_hit: bool,
    pub update: FleetUpdateView,
}

impl View for TurnOutcome {
    type V = TurnOutcomeView;

    open spec fn view(&self) -> TurnOutcomeView {
        TurnOutcomeView { was_hit: self.was_hit, update: self.update@ }
    }
}

/// The fleet update laid out from `start` on: the 16 bytes of the nonce, then
/// the 1088 bytes of the fleet.
pub open spec fn fleet_update_at(bytes: Seq<u8>, start: int) -> FleetUpdateView {
    FleetUpdateView {
        nonce: bytes.subrange(start, start + NONCE_LEN),
        encrypted_fleet: bytes.subrange(start + NONCE_LEN, start + NONCE_LEN + FLEET_BYTES),
    }
}

/// What the result of an initialize or place-ships computation decodes to.
pub open spec fn decode_fleet_spec(output: ComputationOutputs) -> Result<
    FleetUpdateView,
    BattleShipErrorCode,
> {
    match output {
        ComputationOutputs::Abort => Err(BattleShipErrorCode::AbortedComputation),
        ComputationOutputs::Bytes(bytes) => if bytes@.len() == FLEET_PAYLOAD_LEN {
            Ok(fleet_update_at(bytes@, 0))
        } else {
            Err(BattleShipErrorCode::MalformedPayload)
        },
    }
}

/// What the result of a take-turn computation decodes to. The first byte is
/// the revealed flag, and only the value 1 means a hit.
pub open spec fn decode_turn_spec(output: ComputationOutputs) -> Result<
    TurnOutcomeView,
    BattleShipErrorCode,
> {
    match output {
        ComputationOutputs::Abort => Err(BattleShipErrorCode::AbortedComputation),
        ComputationOutputs::Bytes(bytes) => if bytes@.len() == TURN_PAYLOAD_LEN {
            Ok(TurnOutcomeView { was_hit: bytes@[0] == 1, update: fleet_update_at(bytes@, 1) })
        } else {
            Err(BattleShipErrorCode::MalformedPayload)
        },
    }
}

/// Copies the `N` bytes that start at `start` into an array.
fn read_array<const N: usize>(bytes: &Vec<u8>, start: usize) -> (out: [u8; N])
    requires
        start + N <= bytes.len(),
    ensures
        out@ == bytes@.subrange(start as int, start + N),
{
    let mut out = [0u8; N];
    let mut i: usize = 0;
    while i < N
        invariant
            i <= N,
            start + N <= bytes.len(),
            forall|k: int| 0 <= k < i ==> out[k] == bytes[start + k],
        decreases N - i,
    {
        out[i] = bytes[start + i];
        i += 1;
    }
    out
}

fn read_fleet(bytes: &Vec<u8>, start: usize) -> (units: [[u8; 32]; 34])
    requires
        start + 1088 <= bytes.len(),
    ensures
        ciphertext_bytes(units) == bytes@.subrange(start as int, start + 1088),
{
    let mut units = [[0u8; 32]; 34];
    let mut i: usize = 0;
    while i < 34
        invariant
            i <= 34,
            start + 1088 <= bytes.len(),
            forall|r: int, c: int|
                0 <= r < i && 0 <= c < 32 ==> #[trigger] units[r][c] == bytes[start + 32 * r + c],
        decreases 34 - i,
    {
        let unit: [u8; 32] = read_array(bytes, start + 32 * i);
        units[i] = unit;
        i += 1;
    }
    units
}

/// Decodes the result of an initialize or place-ships computation:
/// 16 bytes of nonce, then 34 ciphertext units of 32 bytes, and nothing else.
pub fn decode_fleet_output(output: &ComputationOutputs) -> (res: Result<
    FleetUpdate,
    BattleShipErrorCode,
>)
    ensures
        (match res {
            Ok(update) => decode_fleet_spec(*output) == Ok::<FleetUpdateView, BattleShipErrorCode>(
                update@,
            ),
            Err(e) => decode_fleet_spec(*output) == Err::<FleetUpdateView, BattleShipErrorCode>(e),
        }),
{
    match output {
        ComputationOutputs::Abort => Err(BattleShipErrorCode::AbortedComputation),
        ComputationOutputs::Bytes(bytes) => {
            if bytes.len() != FLEET_PAYLOAD_LEN {
                return Err(BattleShipErrorCode::MalformedPayload);
            }
            let nonce: [u8; 16] = read_array(bytes, 0);
            let encrypted_fleet = read_fleet(bytes, NONCE_LEN);
            Ok(FleetUpdate { nonce, encrypted_fleet })
        },
    }
}

/// Decodes the result of a take-turn computation: the revealed hit flag,
/// then the layout of a fleet update.
pub fn decode_turn_output(output: &ComputationOutputs) -> (res: Result<
    TurnOutcome,
    BattleShipErrorCode,
>)
    ensures
        (match res {
            Ok(outcome) => decode_turn_spec(*output) == Ok::<TurnOutcomeView, BattleShipErrorCode>(
                outcome@,
            ),
            Err(e) => decode_turn_spec(*output) == Err::<TurnOutcomeView, BattleShipErrorCode>(e),
        }),
{
    match output {
        ComputationOutputs::Abort => Err(BattleShipErrorCode::AbortedComputation),
        ComputationOutputs::Bytes(bytes) => {
            if bytes.len() != TURN_PAYLOAD_LEN {
                return Err(BattleShipErrorCode::MalformedPayload);
            }
            let was_hit = bytes[0] == 1;
            let nonce: [u8; 16] = read_array(bytes, 1);
            let encrypted_fleet = read_fleet(bytes, 1 + NONCE_LEN);
            Ok(TurnOutcome { was_hit, update: FleetUpdate { nonce, encrypted_fleet } })
        },
    }
}

} // verus!
