//! The fleets in the clear. The compute network keeps the fleets encrypted;
//! this module states what its three computations do to the values beneath
//! the encryption: create the empty fleets, place a player's ships, and
//! resolve a guess.

use vstd::prelude::*;

verus! {

/// Slots of one player's fleet.
pub const FLEET_SIZE: usize = 17;

/// Rows, and columns, of the board. A ship cell has both coordinates below it.
pub const BOARD_SIZE: u8 = 10;

/// Both coordinates of a slot that holds no ship cell: one in which no ship
/// has been placed yet, or one whose ship cell has been destroyed. The two
/// are not told apart.
pub const SENTINEL: u8 = 255;

/// The fleets of both players in the clear, as the computations see them
/// once they have decrypted their input. A slot holds `[row, col]`.
#[derive(Clone, Copy, Debug, PartialEq, Eq)]
pub struct PlayerShipFleet {
    pub player_1: [[u8; 2]; 17],
    pub player_2: [[u8; 2]; 17],
}

/// A placement: the 17 coordinates of the submitting player's ship cells.
#[derive(Clone, Copy, Debug, PartialEq, Eq)]
pub struct PlaceShipsInputs {
    pub is_player_1: bool,
    pub fleet_location: [[u8; 2]; 17],
}

/// A guess at one coordinate of the opponent's fleet.
#[derive(Clone, Copy, Debug, PartialEq, Eq)]
pub struct TakeTurnInputs {
    pub is_player_1: bool,
    pub guess: [u8; 2],
}

/// A coordinate as the pair (row, column).
pub type Cell = (u8, u8);

/// The coordinate that a slot holds.
pub open spec fn cell(slot: [u8; 2]) -> Cell {
    (slot[0], slot[1])
}

/// The coordinates that the 17 slots of a player hold, in the order of the
/// slots.
pub open spec fn cells(slots: [[u8; 2]; 17]) -> Seq<Cell> {
    Seq::new(17, |i: int| cell(slots[i]))
}

/// What a slot holds before a ship has been placed in it, and again once
/// its ship cell has been destroyed.
pub open spec fn sentinel_cell() -> Cell {
    (SENTINEL, SENTINEL)
}

/// Whether a coordinate lies on the board. The sentinel does not.
pub open spec fn on_board(c: Cell) -> bool {
    c.0 < BOARD_SIZE && c.1 < BOARD_SIZE
}

/// The slots after a guess: every slot that holds the guessed coordinate is
/// destroyed, which is to say overwritten with the sentinel, and the others
/// stay.
pub open spec fn struck(slots: Seq<Cell>, guess: Cell) -> Seq<Cell> {
    Seq::new(
        slots.len(),
        |i: int|
            if slots[i] == guess {
                sentinel_cell()
            } else {
                slots[i]
            },
    )
}

/// Both fleets as sequences of 17 cells each.
pub struct FleetView {
    pub player_1: Seq<Cell>,
    pub player_2: Seq<Cell>,
}

impl View for PlayerShipFleet {
    type V = FleetView;

    open spec fn view(&self) -> FleetView {
        FleetView { player_1: cells(self.player_1), player_2: cells(self.player_2) }
    }
}

impl FleetView {
    /// Each player has exactly 17 slots.
    pub open spec fn wf(self) -> bool {
        self.player_1.len() == FLEET_SIZE && self.player_2.len() == FLEET_SIZE
    }

    /// The fleets in which no slot has been placed.
    pub open spec fn unset() -> FleetView {
        FleetView {
            player_1: Seq::new(17, |i: int| sentinel_cell()),
            player_2: Seq::new(17, |i: int| sentinel_cell()),
        }
    }

    /// The 17 slots of one player, in their fixed order.
    pub open spec fn slots_of(self, is_player_1: bool) -> Seq<Cell> {
        if is_player_1 {
            self.player_1
        } else {
            self.player_2
        }
    }

    /// The fleets after a player has placed: that player's slots are
    /// replaced as a whole, and the other player's slots stay.
    pub open spec fn place(self, is_player_1: bool, coordinates: Seq<Cell>) -> FleetView {
        if is_player_1 {
            FleetView { player_1: coordinates, ..self }
        } else {
            FleetView { player_2: coordinates, ..self }
        }
    }

    /// The 17 slots of the opponent of the given player.
    pub open spec fn opponent_slots(self, is_player_1: bool) -> Seq<Cell> {
        self.slots_of(!is_player_1)
    }

    /// Whether a guess of the given player hits: whether some slot of the
    /// opponent holds the guessed coordinate.
    pub open spec fn is_hit(self, is_player_1: bool, guess: Cell) -> bool {
        self.opponent_slots(is_player_1).contains(guess)
    }

    /// The fleets after a guess of the given player: the opponent's slots
    /// are struck, and the guesser's own slots stay.
    pub open spec fn strike(self, is_player_1: bool, guess: Cell) -> FleetView {
        if is_player_1 {
            FleetView { player_2: struck(self.player_2, guess), ..self }
        } else {
            FleetView { player_1: struck(self.player_1, guess), ..self }
        }
    }
}

/// The fleets at the start of a match: every slot of both players is unset.
pub fn init_player_ship_fleet_location() -> (fleet: PlayerShipFleet)
    ensures
        fleet@ == FleetView::unset(),
{
    let fleet = PlayerShipFleet { player_1: [[SENTINEL; 2]; 17], player_2: [[SENTINEL; 2]; 17] };
    assert(fleet@.player_1 =~= FleetView::unset().player_1);
    assert(fleet@.player_2 =~= FleetView::unset().player_2);
    fleet
}

/// Replaces the 17 slots of the submitting player by `input.fleet_location`
/// and leaves the other player's slots alone. The coordinates are taken as
/// they are: they may repeat, and they may lie off the board.
pub fn place_ships(input: PlaceShipsInputs, fleet: PlayerShipFleet) -> (placed: PlayerShipFleet)
    ensures
        placed@ == fleet@.place(input.is_player_1, cells(input.fleet_location)),
{
    let mut placed = fleet;
    if input.is_player_1 {
        placed.player_1 = input.fleet_location;
    } else {
        placed.player_2 = input.fleet_location;
    }
    placed
}

/// Destroys every slot that holds `guess` and tells whether there was one.
fn strike_slots(slots: [[u8; 2]; 17], guess: [u8; 2]) -> (out: ([[u8; 2]; 17], bool))
    ensures
        cells(out.0) == struck(cells(slots), cell(guess)),
        out.1 == cells(slots).contains(cell(guess)),
{
    let mut remaining = slots;
    let mut was_hit = false;
    let mut i: usize = 0;
    while i < 17
        invariant
            i <= 17,
            forall|k: int|
                0 <= k < i ==> cell(#[trigger] remaining[k]) == struck(
                    cells(slots),
                    cell(guess),
                )[k],
            forall|k: int| i <= k < 17 ==> remaining[k] == slots[k],
            was_hit == (exists|k: int| 0 <= k < i && #[trigger] cells(slots)[k] == cell(guess)),
        decreases 17 - i,
    {
        let ship_loc = remaining[i];
        if ship_loc[0] == guess[0] && ship_loc[1] == guess[1] {
            was_hit = true;
            remaining[i] = [SENTINEL, SENTINEL];
            assert(cells(slots)[i as int] == cell(guess));
        }
        i += 1;
    }
    (remaining, was_hit)
}

/// Resolves a guess against the opponent's fleet. Every slot of the
/// opponent that holds the guessed coordinate is destroyed; the result tells
/// whether there was at least one. The guesser's own slots stay.
pub fn take_turn(input: TakeTurnInputs, fleet: PlayerShipFleet) -> (out: (PlayerShipFleet, bool))
    ensures
        out.0@ == fleet@.strike(input.is_player_1, cell(input.guess)),
        out.1 == fleet@.is_hit(input.is_player_1, cell(input.guess)),
{
    let mut after = fleet;
    let was_hit;
    if input.is_player_1 {
        let (remaining, hit) = strike_slots(fleet.player_2, input.guess);
        after.player_2 = remaining;
        was_hit = hit;
    } else {
        let (remaining, hit) = strike_slots(fleet.player_1, input.guess);
        after.player_1 = remaining;
        was_hit = hit;
    }
    (after, was_hit)
}

/// The sentinel is told apart from every coordinate on the board.
pub proof fn lemma_sentinel_is_off_board(c: Cell)
    requires
        on_board(c),
    ensures
        c != sentinel_cell(),
        !on_board(sentinel_cell()),
{
}

/// A slot that a guess destroys holds what a slot of a new match holds: the
/// sentinel.
pub proof fn lemma_destroyed_slot_holds_the_sentinel(
    fleet: FleetView,
    is_player_1: bool,
    guess: Cell,
    i: int,
)
    requires
        fleet.wf(),
        0 <= i < 17,
        fleet.opponent_slots(is_player_1)[i] == guess,
    ensures
        fleet.strike(is_player_1, guess).opponent_slots(is_player_1)[i] == sentinel_cell(),
        fleet.strike(is_player_1, guess).opponent_slots(is_player_1)[i]
            == FleetView::unset().opponent_slots(is_player_1)[i],
{
}

/// Reading back what was placed gives exactly the coordinates that were
/// submitted, in the order in which they were submitted, whatever the fleet
/// held before; in particular on the fleet of a new match. The other
/// player's slots are as they were.
pub proof fn lemma_place_then_read_back(fleet: FleetView, is_player_1: bool, coordinates: Seq<Cell>)
    ensures
        fleet.wf() && coordinates.len() == 17 ==> fleet.place(is_player_1, coordinates).wf(),
        fleet.place(is_player_1, coordinates).slots_of(is_player_1) == coordinates,
        fleet.place(is_player_1, coordinates).opponent_slots(is_player_1) == fleet.opponent_slots(
            is_player_1,
        ),
        FleetView::unset().place(is_player_1, coordinates).slots_of(is_player_1) == coordinates,
        FleetView::unset().place(is_player_1, coordinates).opponent_slots(is_player_1)
            == Seq::new(17, |i: int| sentinel_cell()),
{
}

/// A guess tells a hit exactly when some slot of the opponent holds the
/// guessed coordinate; it changes no slot of the guesser, and of the
/// opponent's slots exactly those that hold the guessed coordinate, which it
/// destroys.
pub proof fn lemma_strike_destroys_the_matching_slots(
    fleet: FleetView,
    is_player_1: bool,
    guess: Cell,
)
    requires
        fleet.wf(),
    ensures
        fleet.strike(is_player_1, guess).wf(),
        fleet.strike(is_player_1, guess).slots_of(is_player_1) == fleet.slots_of(is_player_1),
        fleet.is_hit(is_player_1, guess) <==> exists|i: int|
            0 <= i < 17 && #[trigger] fleet.opponent_slots(is_player_1)[i] == guess,
        forall|i: int|
            0 <= i < 17 ==> #[trigger] fleet.strike(is_player_1, guess).opponent_slots(
                is_player_1,
            )[i] == (if fleet.opponent_slots(is_player_1)[i] == guess {
                sentinel_cell()
            } else {
                fleet.opponent_slots(is_player_1)[i]
            }),
{
}

/// A guess that misses leaves both fleets as they were.
pub proof fn lemma_miss_changes_nothing(fleet: FleetView, is_player_1: bool, guess: Cell)
    requires
        fleet.wf(),
        !fleet.is_hit(is_player_1, guess),
    ensures
        fleet.strike(is_player_1, guess) == fleet,
{
    let slots = fleet.opponent_slots(is_player_1);
    assert(struck(slots, guess) =~= slots);
}

/// A second guess at the same coordinate leaves both fleets as the first
/// guess left them, whatever the coordinate.
pub proof fn lemma_second_strike_changes_nothing(fleet: FleetView, is_player_1: bool, guess: Cell)
    requires
        fleet.wf(),
    ensures
        fleet.strike(is_player_1, guess).strike(is_player_1, guess) == fleet.strike(
            is_player_1,
            guess,
        ),
{
    let slots = fleet.opponent_slots(is_player_1);
    assert(struck(struck(slots, guess), guess) =~= struck(slots, guess));
}

/// Guessing again a coordinate that was guessed before misses and leaves
/// both fleets as the first guess left them. That it misses holds of every
/// guess but the one that spells the sentinel itself.
pub proof fn lemma_repeated_guess_misses(fleet: FleetView, is_player_1: bool, guess: Cell)
    requires
        fleet.wf(),
        guess != sentinel_cell(),
    ensures
        !fleet.strike(is_player_1, guess).is_hit(is_player_1, guess),
        fleet.strike(is_player_1, guess).strike(is_player_1, guess) == fleet.strike(
            is_player_1,
            guess,
        ),
{
    let first = fleet.strike(is_player_1, guess);
    let slots = first.opponent_slots(is_player_1);
    assert forall|i: int| 0 <= i < slots.len() implies slots[i] != guess by {}
    lemma_miss_changes_nothing(first, is_player_1, guess);
}

/// A guess on the board never hits a slot that is unset or destroyed: where
/// every slot of the opponent holds the sentinel, every such guess misses.
pub proof fn lemma_guess_on_board_misses_empty_slots(
    fleet: FleetView,
    is_player_1: bool,
    guess: Cell,
)
    requires
        fleet.wf(),
        on_board(guess),
        forall|i: int|
            0 <= i < 17 ==> #[trigger] fleet.opponent_slots(is_player_1)[i] == sentinel_cell(),
    ensures
        !fleet.is_hit(is_player_1, guess),
        fleet.strike(is_player_1, guess) == fleet,
{
    let slots = fleet.opponent_slots(is_player_1);
    assert forall|i: int| 0 <= i < slots.len() implies slots[i] != guess by {}
    lemma_miss_changes_nothing(fleet, is_player_1, guess);
}

/// How many slots hold a ship cell that is still afloat: a coordinate on the
/// board, and so not the sentinel.
pub open spec fn afloat(slots: Seq<Cell>) -> nat
    decreases slots.len(),
{
    if slots.len() == 0 {
        0
    } else {
        afloat(slots.drop_last()) + if on_board(slots.last()) {
            1nat
        } else {
            0nat
        }
    }
}

/// Whether no coordinate on the board occurs in two slots, as a fair
/// placement has it.
pub open spec fn distinct_afloat(slots: Seq<Cell>) -> bool {
    forall|i: int, j: int|
        0 <= i < j < slots.len() && on_board(slots[i]) ==> slots[i] != slots[j]
}

/// Where every slot holds a coordinate on the board, every slot is afloat.
pub proof fn lemma_placed_on_board_is_afloat(slots: Seq<Cell>)
    requires
        forall|i: int| 0 <= i < slots.len() ==> on_board(#[trigger] slots[i]),
    ensures
        afloat(slots) == slots.len(),
    decreases slots.len(),
{
    if slots.len() > 0 {
        lemma_placed_on_board_is_afloat(slots.drop_last());
    }
}

/// On slots that hold no coordinate of the board twice, a guess on the board
/// that hits sinks exactly one ship cell, and a guess that misses sinks none.
pub proof fn lemma_hit_sinks_exactly_one_cell(slots: Seq<Cell>, guess: Cell)
    requires
        distinct_afloat(slots),
        on_board(guess),
    ensures
        distinct_afloat(struck(slots, guess)),
        afloat(struck(slots, guess)) == afloat(slots) - (if slots.contains(guess) {
            1int
        } else {
            0int
        }),
    decreases slots.len(),
{
    if slots.len() > 0 {
        let front = slots.drop_last();
        lemma_hit_sinks_exactly_one_cell(front, guess);
        assert(struck(slots, guess).drop_last() =~= struck(front, guess));
        if slots.last() != guess && slots.contains(guess) {
            let i = choose|i: int| 0 <= i < slots.len() && slots[i] == guess;
            assert(front[i] == guess);
        }
    }
}

} // verus!
