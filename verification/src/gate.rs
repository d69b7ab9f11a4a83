//! The pool's configuration: the public entry point a program constructs
//! once and then shares among every caller that submits work.

use vstd::prelude::*;

use std::time::Duration;

verus! {

/// Relies on `std::time::Duration`'s derived `Clone`: a `Duration` is
/// plain `Copy` data, so its clone is the same value.
pub assume_specification[ <Duration as Clone>::clone ](d: &Duration) -> (r: Duration)
    ensures
        r == *d,
;

/// Admission-control configuration for a bounded task-launch gate.
///
/// `count` is the capacity: the most units of work that may hold a slot at
/// once. `check_duration` is the poll interval: how long a waiting caller
/// sleeps between re-checks of the capacity counter. Both are fixed at
/// construction; callers are responsible for choosing sane values (with a
/// `count` of zero no work is ever admitted).
#[derive(Clone)]
pub struct ThreadPool {
    /// The capacity: how many slots exist.
    pub count: usize,
    /// The interval between admission re-checks while a caller waits.
    pub check_duration: Duration,
}

impl ThreadPool {
    /// Build a gate that admits at most `count` concurrent units of work,
    /// re-checking every `check_duration` while a request waits.
    pub fn new(count: usize, check_duration: Duration) -> (p: Self)
        ensures
            p.count == count,
            p.check_duration == check_duration,
    {
        ThreadPool { count, check_duration }
    }
}

} // verus!
