//! The shared state cell: the single mediation point between the update
//! task (or a write handler) and the property read handlers.
//!
//! Under single-threaded cooperative scheduling, exclusive access is
//! expressed by ownership: a task mutates the cell only through `&mut`, and
//! no task suspends while it holds that borrow, so acquisition never waits.
//! A reader therefore always observes the value left by the most recently
//! completed write — a fully formed value, never a partial one. The cell
//! carries a ghost log of every value ever stored, so that contracts can
//! speak of reads as positions in the total order of completed writes.

use vstd::prelude::*;

verus! {

/// An exclusive-access container for the last known value of one property.
pub struct StateCell<T> {
    value: T,
    log: Ghost<Seq<T>>,
}

impl<T: Copy> StateCell<T> {
    /// Every value ever stored, in write order; the initial value first.
    pub closed spec fn log(&self) -> Seq<T> {
        self.log@
    }

    /// The cell's invariant: at least the initial value was stored, and the
    /// stored value is the most recently written one.
    pub closed spec fn wf(&self) -> bool {
        self.log@.len() >= 1 && self.value == self.log@.last()
    }

    /// A cell holding its startup value.
    pub fn new(value: T) -> (c: StateCell<T>)
        ensures
            c.wf(),
            c.log() == seq![value],
    {
        let ghost initial_log: Seq<T> = seq![value];
        StateCell { value, log: Ghost(initial_log) }
    }

    /// Store a new value. The write is appended to the total write order.
    pub fn write(&mut self, value: T)
        requires
            old(self).wf(),
        ensures
            final (self).wf(),
            final (self).log() == old(self).log().push(value),
    {
        self.value = value;
        proof {
            self.log@ = self.log@.push(value);
        }
    }

    /// Copy out the current value: the most recently completed write.
    pub fn read(&self) -> (v: T)
        requires
            self.wf(),
        ensures
            v == self.log().last(),
    {
        self.value
    }
}

/// Linearizability of reads with respect to completed writes: a read that
/// starts once write `k` has completed returns the value of some write no
/// earlier than `k` — here always the most recent completed write, since
/// the cell is never observed mid-write.
pub proof fn lemma_read_linearizable<T>(log: Seq<T>, k: int, v: T)
    requires
        0 <= k < log.len(),
        v == log.last(),
    ensures
        exists|j: int| k <= j < log.len() && v == log[j],
{
    assert(v == log[log.len() - 1]);
}

} // verus!
