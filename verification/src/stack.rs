//! The versioned undo stack: entries are appended in arrival order and leave
//! only through a lookup by version equality against the current cursor.

use vstd::prelude::*;
use crate::counter::UndoCounter;
use crate::undo_event::UndoEvent;

verus! {

/// The position of the first entry at or after `i` whose stamp equals `v`,
/// or `s.len()` when no such entry exists.
pub open spec fn first_match_from<T>(s: Seq<UndoEvent<T>>, v: nat, i: int) -> int
    decreases s.len() - i when 0 <= i <= s.len()
{
    if i >= s.len() {
        s.len() as int
    } else if s[i].no as nat == v {
        i
    } else {
        first_match_from(s, v, i + 1)
    }
}

/// The position of the first entry stamped `v`, or `s.len()` when none is.
pub open spec fn first_match<T>(s: Seq<UndoEvent<T>>, v: nat) -> int {
    first_match_from(s, v, 0)
}

/// Whether some entry of `s` is stamped `v`.
pub open spec fn has_version<T>(s: Seq<UndoEvent<T>>, v: nat) -> bool {
    first_match(s, v) < s.len()
}

/// At most one live entry per version value: the pushers' contract.
pub open spec fn distinct_versions<T>(s: Seq<UndoEvent<T>>) -> bool {
    forall|i: int, j: int| 0 <= i < j < s.len() ==> s[i].no != s[j].no
}

/// The position returned by `first_match_from` lies in range, carries a
/// matching stamp when one exists, and is the earliest match at or after the
/// start: every earlier position differs and no later match is skipped.
pub proof fn lemma_first_match_from<T>(s: Seq<UndoEvent<T>>, v: nat, i: int)
    requires
        0 <= i <= s.len(),
    ensures
        i <= first_match_from(s, v, i) <= s.len(),
        first_match_from(s, v, i) < s.len() ==> s[first_match_from(s, v, i)].no as nat == v,
        forall|j: int| i <= j < first_match_from(s, v, i) ==> s[j].no as nat != v,
        forall|j: int| i <= j < s.len() && s[j].no as nat == v ==> first_match_from(s, v, i) <= j,
    decreases s.len() - i,
{
    if i < s.len() && s[i].no as nat != v {
        lemma_first_match_from(s, v, i + 1);
    }
}

/// An ordered collection of versioned undo entries.
///
/// Entries are appended in arrival order; `pop_if_has_latest` is the only way
/// an entry leaves, and it preserves the relative order of the rest.
pub struct UndoStack<T> {
    entries: Vec<UndoEvent<T>>,
}

impl<T> View for UndoStack<T> {
    type V = Seq<UndoEvent<T>>;

    closed spec fn view(&self) -> Seq<UndoEvent<T>> {
        self.entries@
    }
}

impl<T> Default for UndoStack<T> {
    fn default() -> (r: Self)
        ensures
            r@ == Seq::<UndoEvent<T>>::empty(),
    {
        UndoStack { entries: Vec::new() }
    }
}

impl<T> UndoStack<T> {
    /// An empty stack.
    pub fn new() -> (r: Self)
        ensures
            r@ == Seq::<UndoEvent<T>>::empty(),
    {
        UndoStack { entries: Vec::new() }
    }

    /// How many entries are live.
    pub fn len(&self) -> (r: usize)
        ensures
            r == self@.len(),
    {
        self.entries.len()
    }

    /// Append an entry, stamped by its pusher with the cursor value at push
    /// time.
    pub fn push(&mut self, e: UndoEvent<T>)
        ensures
            final(self)@ == old(self)@.push(e),
    {
        self.entries.push(e);
    }

    /// Remove and return the payload of the first entry whose stamp equals
    /// the current cursor value; leave the stack untouched when none matches.
    ///
    /// Absence is a normal outcome ("nothing registered for this cursor"),
    /// not a failure.
    pub fn pop_if_has_latest(&mut self, counter: &UndoCounter) -> (r: Option<T>)
        ensures
            has_version(old(self)@, counter@) ==> {
                &&& r matches Some(p) && p == old(self)@[first_match(old(self)@, counter@)].inner
                &&& final(self)@ == old(self)@.remove(first_match(old(self)@, counter@))
            },
            !has_version(old(self)@, counter@) ==> r is None && final(self)@ == old(self)@,
    {
        let v = counter.value();
        let mut i: usize = 0;
        while i < self.entries.len()
            invariant
                0 <= i <= self.entries@.len(),
                self.entries@ == old(self)@,
                v as nat == counter@,
                first_match(old(self)@, counter@)
                    == first_match_from(old(self)@, counter@, i as int),
            decreases self.entries@.len() - i,
        {
            if self.entries[i].no == v {
                proof {
                    assert(first_match_from(old(self)@, counter@, i as int) == i as int);
                }
                let e = self.entries.remove(i);
                return Some(e.inner);
            }
            proof {
                assert(first_match_from(old(self)@, counter@, i as int)
                    == first_match_from(old(self)@, counter@, i as int + 1));
            }
            i = i + 1;
        }
        None
    }
}

/// No double-dispatch: once the first entry stamped `v` has been removed from
/// a stack whose stamps are distinct, no entry stamped `v` remains, so a
/// second pop attempt for the same unchanged cursor value returns nothing.
pub proof fn lemma_no_double_dispatch<T>(s: Seq<UndoEvent<T>>, v: nat)
    requires
        distinct_versions(s),
        has_version(s, v),
    ensures
        !has_version(s.remove(first_match(s, v)), v),
{
    let fi = first_match(s, v);
    lemma_first_match_from(s, v, 0);
    let t = s.remove(fi);
    assert forall|k: int| 0 <= k < t.len() implies t[k].no as nat != v by {
        if k < fi {
            assert(t[k] == s[k]);
            assert(s[k].no != s[fi].no);
        } else {
            assert(t[k] == s[k + 1]);
            assert(s[fi].no != s[k + 1].no);
        }
    }
    lemma_first_match_from(t, v, 0);
    if first_match(t, v) < t.len() {
        assert(t[first_match(t, v)].no as nat == v);
    }
}

} // verus!
