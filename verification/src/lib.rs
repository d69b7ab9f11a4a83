//! A bounded task-launch gate.
//!
//! The pool caps how many units of work may run at once. A caller asks for
//! admission; the request is granted immediately if a slot is free, and
//! otherwise waits, re-checking the shared capacity counter at a configured
//! interval. Each admitted unit of work holds a slot guard whose release
//! gives the slot back exactly once, however the work ends.
//!
//! The crate holds the admission and release protocol itself: the capacity
//! counter with its bound invariant, the slot-guard lifecycle, and a history
//! model over which the pool's guarantees are proved. Running units of work
//! on parallel threads, sleeping between polls, and tying the release to
//! scope exit are left to the surrounding program.
//!
//! Known non-guarantees, by design: no ordering among waiting callers (any
//! waiter may be admitted first when a slot frees), no cancellation of a
//! waiting caller, and with a capacity of zero no request is ever admitted.

pub mod counter;
pub mod gate;
pub mod guard;
pub mod history;

pub use counter::SlotCounter;
pub use gate::ThreadPool;
pub use guard::GuardState;
pub use guard::SlotGuard;
