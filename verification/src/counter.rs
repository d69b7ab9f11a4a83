//! The capacity counter: the one piece of shared mutable state behind the
//! gate. In a running program a single counter sits behind a lock and is
//! shared by every caller; each function here is the body of one such
//! critical section, so the lock is never held across a sleep or across a
//! unit of work.

use vstd::prelude::*;

use crate::history::GateEvent;
use crate::history::step_allowed;

verus! {

/// Tracks how many slots of a gate are currently occupied.
pub struct SlotCounter {
    /// The number of admitted units of work whose slot guard has not yet
    /// released.
    pub in_use: usize,
}

impl SlotCounter {
    /// The core invariant: a counter belonging to a gate of the given
    /// capacity never counts more occupied slots than the capacity.
    pub open spec fn inv(self, capacity: usize) -> bool {
        self.in_use <= capacity
    }

    /// A counter starts idle: no slot is occupied.
    pub fn new() -> (c: Self)
        ensures
            c.in_use == 0,
    {
        SlotCounter { in_use: 0 }
    }

    /// One poll of the admission loop: reserve a slot if one is free.
    /// Admission succeeds exactly when the counter is below the capacity;
    /// on success the counter goes up by one, otherwise it is unchanged.
    pub fn try_acquire(&mut self, capacity: usize) -> (admitted: bool)
        requires
            old(self).inv(capacity),
        ensures
            final(self).inv(capacity),
            admitted == (old(self).in_use < capacity),
            admitted == step_allowed(old(self).in_use as int, GateEvent::Admit, capacity),
            admitted ==> final(self).in_use == old(self).in_use + 1,
            !admitted ==> final(self).in_use == old(self).in_use,
    {
        if self.in_use < capacity {
            self.in_use = self.in_use + 1;
            true
        } else {
            false
        }
    }

    /// Give one slot back: the counter goes down by exactly one. Called
    /// once per admitted unit of work, when it finishes for any reason, so
    /// at least one slot is occupied.
    pub fn release(&mut self)
        requires
            old(self).in_use >= 1,
        ensures
            final(self).in_use == old(self).in_use - 1,
    {
        self.in_use = self.in_use - 1;
    }
}

} // verus!
