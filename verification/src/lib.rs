//! A turn-based card-combat engine: the rules by which cards hurt or heal a
//! roster of hostiles, the bookkeeping of a turn, and the state machine that
//! passes the turn back and forth until one side has fallen.
//!
//! The engine does no I/O and keeps no clock. A host builds a session from an
//! encounter configuration, feeds it actions, and reads back what happened.
//!
//! - [`card`]: the kinds of card and their numbers.
//! - [`health`]: health pools, hostiles and the roster.
//! - [`turn`]: the state of a turn.
//! - [`resolver`]: what a card does, given the state of the turn.
//! - [`outcome`]: how an encounter stands, and what the host is to do then.
//! - [`action`]: what a host can ask, and what it is told.
//! - [`model`]: the encounter as a mathematical state machine.
//! - [`laws`]: what holds of that state machine.
//! - [`session`]: the encounter as a value that a host owns and changes.
//! - [`encounters`]: the encounters of the four chapters.

pub mod action;
pub mod card;
pub mod encounters;
pub mod health;
pub mod laws;
pub mod model;
pub mod outcome;
pub mod resolver;
pub mod session;
pub mod turn;
