use std::time::Duration;

use thread_gate::GuardState;
use thread_gate::SlotCounter;
use thread_gate::SlotGuard;
use thread_gate::ThreadPool;

#[test]
fn new_pool_stores_configuration() {
    let pool = ThreadPool::new(30, Duration::from_millis(5));
    assert_eq!(pool.count, 30);
    assert_eq!(pool.check_duration, Duration::from_millis(5));
}

#[test]
fn fresh_counter_is_idle() {
    let c = SlotCounter::new();
    assert_eq!(c.in_use, 0);
}

#[test]
fn bound_is_never_exceeded() {
    // Ten admission polls against a capacity of three admit exactly three.
    let mut c = SlotCounter::new();
    let mut admitted: usize = 0;
    for _i in 0..10usize {
        if c.try_acquire(3) {
            admitted += 1;
        }
        assert!(c.in_use <= 3);
    }
    assert_eq!(admitted, 3);
    assert_eq!(c.in_use, 3);
}

#[test]
fn release_frees_a_slot() {
    let mut c = SlotCounter::new();
    assert!(c.try_acquire(1));
    assert!(!c.try_acquire(1));
    c.release();
    assert_eq!(c.in_use, 0);
    assert!(c.try_acquire(1));
}

#[test]
fn zero_capacity_never_admits() {
    let mut c = SlotCounter::new();
    for _i in 0..100usize {
        assert!(!c.try_acquire(0));
        assert_eq!(c.in_use, 0);
    }
}

#[test]
fn guard_lifecycle_runs_once() {
    let mut c = SlotCounter::new();
    let mut g = SlotGuard::new();
    assert_eq!(g.state, GuardState::Unreserved);
    assert!(g.acquire(&mut c, 2));
    assert_eq!(g.state, GuardState::Reserved);
    assert_eq!(c.in_use, 1);
    g.release(&mut c);
    assert_eq!(g.state, GuardState::Released);
    assert_eq!(c.in_use, 0);
}

#[test]
fn failed_admission_leaves_guard_unreserved() {
    let mut c = SlotCounter::new();
    let mut first = SlotGuard::new();
    assert!(first.acquire(&mut c, 1));
    let mut second = SlotGuard::new();
    assert!(!second.acquire(&mut c, 1));
    assert_eq!(second.state, GuardState::Unreserved);
    assert_eq!(c.in_use, 1);
}
