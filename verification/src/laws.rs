//! The coordination guarantees, stated over the abstract tick transitions and
//! proved once for all inputs.

use vstd::prelude::*;
use crate::coordinator::{CoordView, tick_start_spec, tick_end_spec};

verus! {

/// Reservation priority: with an undo request and a reservation commit signal
/// pending in the same tick, the machine enters `CommittingReservations`
/// first and queues the undo as a deferred request; after the fold the very
/// next tick services it, so the undo runs no earlier than the tick after the
/// reservations were folded.
pub proof fn lemma_reservation_priority(
    c: CoordView,
    commit_from_scheduler: bool,
    commit_direct: bool,
)
    requires
        c.state is Idle,
        commit_from_scheduler || commit_direct,
    ensures
        ({
            let (c1, wait_emitted) = tick_start_spec(c, true, commit_from_scheduler, commit_direct);
            let c2 = tick_end_spec(c1);
            &&& c1.state is CommittingReservations
            &&& wait_emitted
            &&& c1.pending_undo
            &&& c2.state is Idle
            &&& c2.cursor == c.cursor + c.reserve
            &&& tick_start_spec(c2, false, false, false).0.state is RequestingUndo
        }),
{
}

/// Idle return: every tick that leaves `Idle` returns to `Idle` by that same
/// tick's end, whatever signals arrived and whatever the external dispatch
/// collaborator reported in between; only the deferred undo request survives
/// a tick boundary.
pub proof fn lemma_idle_return(
    c: CoordView,
    undo_requested: bool,
    commit_from_scheduler: bool,
    commit_direct: bool,
    posted_by_dispatch: bool,
)
    requires
        c.state is Idle,
    ensures
        ({
            let c1 = tick_start_spec(c, undo_requested, commit_from_scheduler, commit_direct).0;
            let c2 = if c1.state is RequestingUndo {
                CoordView { posted: posted_by_dispatch, ..c1 }
            } else {
                c1
            };
            tick_end_spec(c2).state is Idle
        }),
{
}

/// No silent drop: an undo request raised while a reservation commit wins the
/// tick is re-issued exactly once. One deferred request is queued (never
/// zero); on the next tick it is either serviced and consumed, or — if
/// another commit wins again — deferred again, still as a single request
/// (never more than one per original request).
pub proof fn lemma_no_silent_drop(
    c: CoordView,
    commit_from_scheduler: bool,
    commit_direct: bool,
    commit_from_scheduler_next: bool,
    commit_direct_next: bool,
)
    requires
        c.state is Idle,
        commit_from_scheduler || commit_direct,
    ensures
        ({
            let (c1, wait_emitted) = tick_start_spec(c, true, commit_from_scheduler, commit_direct);
            let c2 = tick_end_spec(c1);
            let commit_next = commit_from_scheduler_next || commit_direct_next;
            let (c3, wait_next) = tick_start_spec(
                c2,
                false,
                commit_from_scheduler_next,
                commit_direct_next,
            );
            &&& wait_emitted
            &&& c1.pending_undo
            &&& c2.pending_undo
            &&& (!commit_next ==> c3.state is RequestingUndo && !c3.pending_undo)
            &&& (commit_next ==> c3.state is CommittingReservations && c3.pending_undo
                && wait_next)
        }),
{
}

/// Fold correctness: finalizing a commit cycle with cursor `c` and
/// accumulated reservations `r` leaves the cursor at `c + r` and the
/// reservation counter at zero.
pub proof fn lemma_fold_correctness(c: CoordView)
    requires
        c.state is CommittingReservations,
    ensures
        tick_end_spec(c).cursor == c.cursor + c.reserve,
        tick_end_spec(c).reserve == 0,
{
}

/// Cursor decrement exactness: at the end of an undo cycle the cursor
/// decreases by exactly one when a dispatch was posted, and is unchanged when
/// none was.
pub proof fn lemma_cursor_decrement_exactness(c: CoordView)
    requires
        c.state is RequestingUndo,
        c.posted ==> c.cursor > 0,
    ensures
        c.posted ==> tick_end_spec(c).cursor == c.cursor - 1,
        !c.posted ==> tick_end_spec(c).cursor == c.cursor,
{
}

} // verus!
