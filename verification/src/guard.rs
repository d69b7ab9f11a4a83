//! The slot guard: the object that stands for one reserved unit of
//! capacity, from admission until the slot is given back.

use vstd::prelude::*;

use crate::counter::SlotCounter;

verus! {

/// Where a slot guard is in its life.
#[derive(Clone, Copy, PartialEq, Eq, Structural, Debug)]
pub enum GuardState {
    /// No slot is held yet: admission has not succeeded.
    Unreserved,
    /// Admission succeeded: the counter was incremented and the guard
    /// holds one slot.
    Reserved,
    /// Terminal: the slot was given back and the counter decremented.
    /// A guard never becomes `Reserved` again; a new request makes a
    /// fresh guard.
    Released,
}

/// Witnesses one reserved unit of capacity. Its contracts force the
/// lifecycle `Unreserved`, then `Reserved`, then `Released`: the counter
/// is incremented exactly once on admission and decremented exactly once
/// on release, whatever way the guarded work ends.
pub struct SlotGuard {
    /// The guard's place in its lifecycle.
    pub state: GuardState,
}

impl SlotGuard {
    /// A fresh guard for a new request: nothing reserved yet.
    pub fn new() -> (g: Self)
        ensures
            g.state is Unreserved,
    {
        SlotGuard { state: GuardState::Unreserved }
    }

    /// One admission attempt on behalf of this guard: one poll of the
    /// admission loop, run under the counter's lock. On success the guard
    /// becomes `Reserved` and the counter goes up by one; otherwise both
    /// are unchanged and the caller sleeps for the poll interval before
    /// trying again.
    pub fn acquire(&mut self, counter: &mut SlotCounter, capacity: usize) -> (admitted: bool)
        requires
            old(self).state is Unreserved,
            old(counter).inv(capacity),
        ensures
            final(counter).inv(capacity),
            admitted == (old(counter).in_use < capacity),
            admitted ==> final(self).state is Reserved,
            admitted ==> final(counter).in_use == old(counter).in_use + 1,
            !admitted ==> final(self).state is Unreserved,
            !admitted ==> final(counter).in_use == old(counter).in_use,
    {
        let admitted = counter.try_acquire(capacity);
        if admitted {
            self.state = GuardState::Reserved;
        }
        admitted
    }

    /// Give the slot back: the one `Reserved` to `Released` transition,
    /// run when the guarded unit of work finishes for any reason — normal
    /// return, failure, or abrupt termination. A reserved guard counts in
    /// the counter, so at least one slot is occupied.
    pub fn release(&mut self, counter: &mut SlotCounter)
        requires
            old(self).state is Reserved,
            old(counter).in_use >= 1,
        ensures
            final(self).state is Released,
            final(counter).in_use == old(counter).in_use - 1,
    {
        counter.release();
        self.state = GuardState::Released;
    }
}

} // verus!
