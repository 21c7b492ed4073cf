//! The tick-phase state machine: three states driven by incoming signals,
//! with per-tick finalizers that mutate the counters and return to idle.

use vstd::prelude::*;
use crate::counter::UndoCounter;
use crate::reserve::ReserveCounter;

verus! {

/// The coordinator's phase. Exactly one value is active process-wide.
///
/// `Idle` is both initial and terminal per cycle: the machine returns to it
/// at the end of every tick in which it left. Only `Idle` accepts new
/// requests; the other two states are transient, each fully resolved by the
/// end of the same tick.
#[derive(Debug, Default, PartialEq, Eq, Structural, Copy, Clone, Hash)]
pub enum UndoState {
    /// Resting state: new requests are evaluated here.
    #[default]
    Idle,
    /// An undo dispatch is in flight this tick.
    RequestingUndo,
    /// Pending reservations are being committed this tick.
    CommittingReservations,
}

/// Evaluate the signals pending at the start of a tick while the machine is
/// idle, and pick the phase for this tick.
///
/// Reservation commits take priority: if either commit source is pending the
/// machine enters `CommittingReservations`, and a simultaneously pending undo
/// request is deferred by emitting a wait signal (the returned flag) instead
/// of being dropped. Otherwise a pending undo request clears the posted flag
/// and enters `RequestingUndo`; with nothing pending the machine stays idle.
pub fn request_undo_system(
    commit_from_scheduler: bool,
    commit_direct: bool,
    undo_requested: bool,
    state: &mut UndoState,
    posted: &mut bool,
) -> (wait_emitted: bool)
    requires
        *old(state) is Idle,
    ensures
        commit_from_scheduler || commit_direct ==> {
            &&& *final(state) is CommittingReservations
            &&& wait_emitted == undo_requested
            &&& *final(posted) == *old(posted)
        },
        !(commit_from_scheduler || commit_direct) && undo_requested ==> {
            &&& *final(state) is RequestingUndo
            &&& !wait_emitted
            &&& !*final(posted)
        },
        !(commit_from_scheduler || commit_direct) && !undo_requested ==> {
            &&& *final(state) is Idle
            &&& !wait_emitted
            &&& *final(posted) == *old(posted)
        },
{
    if commit_from_scheduler || commit_direct {
        *state = UndoState::CommittingReservations;
        undo_requested
    } else if undo_requested {
        *posted = false;
        *state = UndoState::RequestingUndo;
        false
    } else {
        false
    }
}

/// Convert a pending wait signal back into a fresh undo request.
///
/// A deferred undo request is re-issued exactly once (the returned flag),
/// clearing the posted flag again so the normal `RequestingUndo` path
/// re-evaluates it once reservations have cleared.
pub fn undo_wait_event_system(wait_pending: bool, posted: &mut bool) -> (undo_reissued: bool)
    ensures
        undo_reissued == wait_pending,
        wait_pending ==> !*final(posted),
        !wait_pending ==> *final(posted) == *old(posted),
{
    if wait_pending {
        *posted = false;
        true
    } else {
        false
    }
}

/// Finalize a `RequestingUndo` tick: decrement the cursor exactly when the
/// external dispatch collaborator reported an actual dispatch (posted), and
/// return to idle unconditionally — a request with nothing to undo still
/// completes the cycle silently.
pub fn reset_state_system(state: &mut UndoState, counter: &mut UndoCounter, posted: bool)
    requires
        *old(state) is RequestingUndo,
        posted ==> old(counter)@ > 0,
    ensures
        *final(state) is Idle,
        posted ==> final(counter)@ == old(counter)@ - 1,
        !posted ==> final(counter)@ == old(counter)@,
{
    if posted {
        counter.decrement();
    }
    *state = UndoState::Idle;
}

/// Finalize a `CommittingReservations` tick: fold the accumulated reservation
/// magnitude into the cursor, reset the accumulator to zero, and return to
/// idle unconditionally.
pub fn reserve_reset_system(
    state: &mut UndoState,
    counter: &mut UndoCounter,
    reserve_counter: &mut ReserveCounter,
)
    requires
        *old(state) is CommittingReservations,
        old(counter)@ + old(reserve_counter)@ <= u64::MAX,
    ensures
        *final(state) is Idle,
        final(counter)@ == old(counter)@ + old(reserve_counter)@,
        final(reserve_counter)@ == 0,
{
    counter.add(reserve_counter);
    reserve_counter.reset();
    *state = UndoState::Idle;
}

} // verus!
