//! The cursor counter: a non-negative integer used both as the version stamp
//! attached to every undo entry at push time and as the current undo cursor
//! the coordinator consumes from.

use vstd::prelude::*;

verus! {

/// The global undo cursor. Its value says how many undo-eligible operations
/// are currently outstanding, and is the version-match key for stack lookup.
///
/// Decrementing below zero would desynchronize cursor and stack, so it is a
/// caller contract violation, excluded by `requires` rather than clamped.
#[derive(Debug, Clone, Copy, PartialEq, Eq, PartialOrd, Ord, Structural)]
pub struct UndoCounter {
    value: u64,
}

impl View for UndoCounter {
    type V = nat;

    closed spec fn view(&self) -> nat {
        self.value as nat
    }
}

impl UndoCounter {
    /// A fresh cursor, starting at zero.
    pub fn new() -> (r: Self)
        ensures
            r@ == 0,
    {
        UndoCounter { value: 0 }
    }

    /// The current cursor value.
    pub fn value(&self) -> (r: u64)
        ensures
            r as nat == self@,
    {
        self.value
    }

    /// Raise the cursor by one (a pusher stamped a new undo entry).
    pub fn increment(&mut self)
        requires
            old(self)@ < u64::MAX,
        ensures
            final(self)@ == old(self)@ + 1,
    {
        self.value = self.value + 1;
    }

    /// Fold a committed reservation magnitude into the cursor.
    pub fn add(&mut self, other: &crate::reserve::ReserveCounter)
        requires
            old(self)@ + other@ <= u64::MAX,
        ensures
            final(self)@ == old(self)@ + other@,
    {
        self.value = self.value + other.value();
    }

    /// Lower the cursor by one (an undo entry was consumed this tick).
    pub fn decrement(&mut self)
        requires
            old(self)@ > 0,
        ensures
            final(self)@ == old(self)@ - 1,
    {
        self.value = self.value - 1;
    }
}

impl Default for UndoCounter {
    fn default() -> (r: Self)
        ensures
            r@ == 0,
    {
        UndoCounter { value: 0 }
    }
}

} // verus!
