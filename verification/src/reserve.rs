//! The reservation counter: an accumulator for the magnitude of committed
//! reservations before they are folded into the cursor counter.

use vstd::prelude::*;

verus! {

/// Accumulates pending reservation magnitude within one coordination cycle.
///
/// Structurally a counter like the cursor, but semantically an accumulator:
/// contributors raise it, the commit finalizer folds it into the cursor and
/// resets it to zero.
#[derive(Debug, Clone, Copy, PartialEq, Eq, PartialOrd, Ord, Structural)]
pub struct ReserveCounter {
    value: u64,
}

impl View for ReserveCounter {
    type V = nat;

    closed spec fn view(&self) -> nat {
        self.value as nat
    }
}

impl ReserveCounter {
    /// A fresh accumulator, starting at zero.
    pub fn new() -> (r: Self)
        ensures
            r@ == 0,
    {
        ReserveCounter { value: 0 }
    }

    /// The magnitude accumulated so far in this cycle.
    pub fn value(&self) -> (r: u64)
        ensures
            r as nat == self@,
    {
        self.value
    }

    /// A contributor adds one unit of reservation magnitude.
    pub fn increment(&mut self)
        requires
            old(self)@ < u64::MAX,
        ensures
            final(self)@ == old(self)@ + 1,
    {
        self.value = self.value + 1;
    }

    /// Clear the accumulator, after its value was folded into the cursor.
    pub fn reset(&mut self)
        ensures
            final(self)@ == 0,
    {
        self.value = 0;
    }
}

impl Default for ReserveCounter {
    fn default() -> (r: Self)
        ensures
            r@ == 0,
    {
        ReserveCounter { value: 0 }
    }
}

} // verus!
