//! The coordinator of a two-player battleship match whose fleets stay
//! encrypted. A compute network evaluates the moves over ciphertext; this
//! library decides who may submit which move, builds the requests that go to
//! the network, decodes the results that come back, and advances the match.
//!
//! * [`fleet`]: what the three computations do to the fleets in the clear.
//! * [`gateway`]: the requests to the network and the decoding of its results.
//! * [`record`]: the stored record of a match and its invariant.
//! * [`guard`]: who may place ships and who may guess.
//! * [`coordinator`]: the handlers of moves and of results.
//! * [`history`]: what holds of a match over all that is ever delivered to it.
//! * [`tally`]: why the ship counts agree with the fleets.

pub mod coordinator;
pub mod error;
pub mod events;
pub mod fleet;
pub mod gateway;
pub mod guard;
pub mod history;
pub mod keys;
pub mod record;
pub mod tally;
