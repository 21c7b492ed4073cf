//! A versioned undo entry: a payload paired with the cursor value recorded at
//! the moment it was pushed.

use vstd::prelude::*;

verus! {

/// One entry of the versioned undo stack.
///
/// `no` is the version stamp: the cursor counter's value at push time. Lookup
/// is by equality of `no` against the current cursor, never by position.
pub struct UndoEvent<T> {
    /// The undo payload, replayed by the external dispatch collaborator.
    pub inner: T,
    /// The cursor value at push time.
    pub no: u64,
}

impl<T> UndoEvent<T> {
    /// Stamp a payload with the given cursor value.
    pub fn new(inner: T, no: u64) -> (r: Self)
        ensures
            r.inner == inner,
            r.no == no,
    {
        UndoEvent { inner, no }
    }
}

} // verus!
