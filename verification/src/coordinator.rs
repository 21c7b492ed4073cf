//! The per-tick coordinator: explicitly-owned state driven once per tick by
//! the host loop, composing the phase systems in their fixed order.

use vstd::prelude::*;
use crate::counter::UndoCounter;
use crate::machine::{UndoState, request_undo_system, undo_wait_event_system, reset_state_system,
    reserve_reset_system};
use crate::reserve::ReserveCounter;
use crate::stack::{UndoStack, first_match, has_version};
use crate::undo_event::UndoEvent;

verus! {

/// The coordinator's abstract state: phase, both counters, the posted flag,
/// and whether one deferred undo request is carried into the next tick.
pub ghost struct CoordView {
    /// The active phase.
    pub state: UndoState,
    /// The cursor counter's value.
    pub cursor: nat,
    /// The reservation accumulator's value.
    pub reserve: nat,
    /// Whether an undo was actually replayed this cycle.
    pub posted: bool,
    /// Whether a wait signal re-issued an undo request for the next tick.
    pub pending_undo: bool,
}

/// The early-phase transition: evaluate all signals pending at the start of a
/// tick (external ones and the deferred request carried by the wait path) and
/// pick this tick's phase.
///
/// The result pairs the new state with whether a wait signal was emitted.
pub open spec fn tick_start_spec(
    c: CoordView,
    undo_requested: bool,
    commit_from_scheduler: bool,
    commit_direct: bool,
) -> (CoordView, bool) {
    let undo = undo_requested || c.pending_undo;
    if commit_from_scheduler || commit_direct {
        (
            CoordView {
                state: UndoState::CommittingReservations,
                posted: if undo { false } else { c.posted },
                pending_undo: undo,
                ..c
            },
            undo,
        )
    } else if undo {
        (CoordView { state: UndoState::RequestingUndo, posted: false, pending_undo: false, ..c }, false)
    } else {
        (CoordView { pending_undo: false, ..c }, false)
    }
}

/// The end-of-tick transition: run the finalizer of the active phase and
/// return to idle.
pub open spec fn tick_end_spec(c: CoordView) -> CoordView {
    match c.state {
        UndoState::RequestingUndo => CoordView {
            state: UndoState::Idle,
            cursor: if c.posted { (c.cursor - 1) as nat } else { c.cursor },
            ..c
        },
        UndoState::CommittingReservations => CoordView {
            state: UndoState::Idle,
            cursor: c.cursor + c.reserve,
            reserve: 0,
            ..c
        },
        UndoState::Idle => c,
    }
}

/// Owns the phase state, the two counters, the posted flag and the one-slot
/// deferred undo request, and steps them once per tick.
pub struct Coordinator {
    state: UndoState,
    cursor: UndoCounter,
    reserve: ReserveCounter,
    posted: bool,
    pending_undo: bool,
}

impl View for Coordinator {
    type V = CoordView;

    closed spec fn view(&self) -> CoordView {
        CoordView {
            state: self.state,
            cursor: self.cursor@,
            reserve: self.reserve@,
            posted: self.posted,
            pending_undo: self.pending_undo,
        }
    }
}

impl Coordinator {
    /// A fresh coordinator: idle, both counters at zero, nothing posted and
    /// nothing deferred.
    pub fn new() -> (r: Self)
        ensures
            r@ == (CoordView {
                state: UndoState::Idle,
                cursor: 0,
                reserve: 0,
                posted: false,
                pending_undo: false,
            }),
    {
        Coordinator {
            state: UndoState::Idle,
            cursor: UndoCounter::new(),
            reserve: ReserveCounter::new(),
            posted: false,
            pending_undo: false,
        }
    }

    /// The active phase.
    pub fn state(&self) -> (r: UndoState)
        ensures
            r == self@.state,
    {
        self.state
    }

    /// The current cursor value.
    pub fn cursor(&self) -> (r: u64)
        ensures
            r as nat == self@.cursor,
    {
        self.cursor.value()
    }

    /// The reservation magnitude accumulated so far.
    pub fn reserve(&self) -> (r: u64)
        ensures
            r as nat == self@.reserve,
    {
        self.reserve.value()
    }

    /// Whether an undo dispatch was reported this cycle.
    pub fn posted(&self) -> (r: bool)
        ensures
            r == self@.posted,
    {
        self.posted
    }

    /// Whether a deferred undo request is carried into the next tick.
    pub fn pending_undo(&self) -> (r: bool)
        ensures
            r == self@.pending_undo,
    {
        self.pending_undo
    }

    /// A pusher stamped a new undo entry: raise the cursor by one.
    pub fn increment_cursor(&mut self)
        requires
            old(self)@.cursor < u64::MAX,
        ensures
            final(self)@ == (CoordView { cursor: old(self)@.cursor + 1, ..old(self)@ }),
    {
        self.cursor.increment();
    }

    /// A contributor adds one unit of reservation magnitude, to be folded
    /// into the cursor when the next commit cycle finalizes.
    pub fn add_reservation(&mut self)
        requires
            old(self)@.reserve < u64::MAX,
        ensures
            final(self)@ == (CoordView { reserve: old(self)@.reserve + 1, ..old(self)@ }),
    {
        self.reserve.increment();
    }

    /// Run the early phase of one tick: evaluate the pending signals in their
    /// fixed order (request evaluation, then wait conversion) and enter this
    /// tick's phase.
    pub fn tick_start(
        &mut self,
        undo_requested: bool,
        commit_from_scheduler: bool,
        commit_direct: bool,
    )
        requires
            old(self)@.state is Idle,
        ensures
            final(self)@ == tick_start_spec(
                old(self)@,
                undo_requested,
                commit_from_scheduler,
                commit_direct,
            ).0,
    {
        let undo = undo_requested || self.pending_undo;
        self.pending_undo = false;
        let wait_emitted = request_undo_system(
            commit_from_scheduler,
            commit_direct,
            undo,
            &mut self.state,
            &mut self.posted,
        );
        let undo_reissued = undo_wait_event_system(wait_emitted, &mut self.posted);
        self.pending_undo = undo_reissued;
    }

    /// The external dispatch collaborator reports that it actually popped and
    /// replayed an undo entry this tick.
    pub fn mark_posted(&mut self)
        requires
            old(self)@.state is RequestingUndo,
        ensures
            final(self)@ == (CoordView { posted: true, ..old(self)@ }),
    {
        self.posted = true;
    }

    /// Pop the stack entry stamped with the current cursor, if any, and mark
    /// the cycle posted exactly when an entry was popped. The caller replays
    /// the returned payload; absence is a no-op, not a failure.
    pub fn dispatch_undo<T>(&mut self, stack: &mut UndoStack<T>) -> (r: Option<T>)
        requires
            old(self)@.state is RequestingUndo,
        ensures
            has_version(old(stack)@, old(self)@.cursor) ==> {
                &&& r matches Some(p)
                    && p == old(stack)@[first_match(old(stack)@, old(self)@.cursor)].inner
                &&& final(stack)@ == old(stack)@.remove(
                    first_match(old(stack)@, old(self)@.cursor),
                )
                &&& final(self)@ == (CoordView { posted: true, ..old(self)@ })
            },
            !has_version(old(stack)@, old(self)@.cursor) ==> {
                &&& r is None
                &&& final(stack)@ == old(stack)@
                &&& final(self)@ == old(self)@
            },
    {
        let popped = stack.pop_if_has_latest(&self.cursor);
        if popped.is_some() {
            self.posted = true;
        }
        popped
    }

    /// Run the end-of-tick finalizer of the active phase and return to idle.
    ///
    /// A posted undo cycle consumes one cursor unit, so the cursor must not
    /// be zero then; a commit cycle folds the accumulated reservations, which
    /// must fit the cursor's range.
    pub fn tick_end(&mut self)
        requires
            old(self)@.state is RequestingUndo && old(self)@.posted ==> old(self)@.cursor > 0,
            old(self)@.state is CommittingReservations ==> old(self)@.cursor + old(self)@.reserve
                <= u64::MAX,
        ensures
            final(self)@ == tick_end_spec(old(self)@),
    {
        match self.state {
            UndoState::RequestingUndo => {
                reset_state_system(&mut self.state, &mut self.cursor, self.posted);
            },
            UndoState::CommittingReservations => {
                reserve_reset_system(&mut self.state, &mut self.cursor, &mut self.reserve);
            },
            UndoState::Idle => {},
        }
    }
}

} // verus!
