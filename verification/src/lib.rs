//! Coordination of undo operations in a tick-driven application.
//!
//! Multiple independently raised "undo request" and "reservation commit"
//! signals arrive across ticks and are sequenced into a strict two-phase
//! protocol: pending reservations are first committed and folded into the
//! shared cursor counter, then (if still requested) an undo is dispatched by
//! cursor value, and per-tick bookkeeping resets. An undo request that loses
//! the race against a reservation commit is deferred by one tick, never
//! dropped.

use vstd::prelude::*;

mod coordinator;
mod counter;
mod laws;
mod machine;
mod reserve;
mod stack;
mod undo_event;

pub use coordinator::{Coordinator, CoordView, tick_start_spec, tick_end_spec};
pub use counter::UndoCounter;
pub use laws::{lemma_reservation_priority, lemma_idle_return, lemma_no_silent_drop,
    lemma_fold_correctness, lemma_cursor_decrement_exactness};
pub use machine::{UndoState, request_undo_system, undo_wait_event_system, reset_state_system,
    reserve_reset_system};
pub use reserve::ReserveCounter;
pub use stack::{UndoStack, first_match, first_match_from, has_version, distinct_versions,
    lemma_first_match_from, lemma_no_double_dispatch};
pub use undo_event::UndoEvent;

verus! {

/// Marker for adding the undo coordination subsystem to a host application.
///
/// The host loop wires the per-tick systems of this crate around a
/// [`Coordinator`]-style state; this type only names that bundle.
#[derive(Debug, Default, Eq, PartialEq, Copy, Clone, Hash)]
pub struct UndoPlugin;

} // verus!
