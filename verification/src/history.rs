//! A model of the pool's observable behaviour: the sequence of admissions
//! and releases that the capacity counter goes through, and the guarantees
//! the pool gives over every such sequence.

use vstd::prelude::*;

verus! {

/// One observable transition of the capacity counter.
pub enum GateEvent {
    /// A request was admitted: a free slot was reserved and the counter
    /// incremented, under the protecting lock.
    Admit,
    /// An admitted unit of work finished, for any reason, and its slot
    /// guard gave the slot back: the counter was decremented.
    Release,
}

/// How one event changes the capacity counter.
pub open spec fn step_delta(e: GateEvent) -> int {
    match e {
        GateEvent::Admit => 1,
        GateEvent::Release => -1,
    }
}

/// The value of the capacity counter after the events of `h`, starting
/// from an idle gate (counter zero).
pub open spec fn counter_after(h: Seq<GateEvent>) -> int
    decreases h.len(),
{
    if h.len() == 0 {
        0
    } else {
        counter_after(h.drop_last()) + step_delta(h.last())
    }
}

/// The number of admissions in `h`.
pub open spec fn admit_count(h: Seq<GateEvent>) -> int
    decreases h.len(),
{
    if h.len() == 0 {
        0
    } else {
        admit_count(h.drop_last()) + if h.last() is Admit { 1int } else { 0int }
    }
}

/// The number of releases in `h`.
pub open spec fn release_count(h: Seq<GateEvent>) -> int
    decreases h.len(),
{
    if h.len() == 0 {
        0
    } else {
        release_count(h.drop_last()) + if h.last() is Release { 1int } else { 0int }
    }
}

/// The events a pool allows in a given counter state: an admission only
/// while a slot is free, a release only while a slot is held.
pub open spec fn step_allowed(counter: int, e: GateEvent, capacity: usize) -> bool {
    match e {
        GateEvent::Admit => counter < capacity,
        GateEvent::Release => counter > 0,
    }
}

/// A history a pool of the given capacity can actually go through: every
/// event was allowed in the state the counter was in when it happened.
pub open spec fn valid_history(h: Seq<GateEvent>, capacity: usize) -> bool {
    forall|i: int|
        0 <= i < h.len() ==> step_allowed(counter_after(h.take(i)), #[trigger] h[i], capacity)
}

/// Every prefix of a history a pool can go through is itself such a
/// history.
pub proof fn lemma_prefix_valid(h: Seq<GateEvent>, capacity: usize, n: int)
    requires
        valid_history(h, capacity),
        0 <= n <= h.len(),
    ensures
        valid_history(h.take(n), capacity),
{
    let p = h.take(n);
    assert forall|i: int|
        0 <= i < p.len() implies step_allowed(
        counter_after(p.take(i)),
        #[trigger] p[i],
        capacity,
    ) by {
        assert(p.take(i) =~= h.take(i));
        assert(p[i] == h[i]);
    }
}

/// Bound invariant: after any history a pool can go through, the capacity
/// counter lies between zero and the capacity. Since every prefix of such
/// a history is itself one, the bound holds at every instant.
pub proof fn lemma_bound_invariant(h: Seq<GateEvent>, capacity: usize)
    requires
        valid_history(h, capacity),
    ensures
        0 <= counter_after(h) <= capacity,
    decreases h.len(),
{
    if h.len() > 0 {
        let n = h.len() - 1;
        lemma_prefix_valid(h, capacity, n as int);
        assert(h.take(n as int) =~= h.drop_last());
        lemma_bound_invariant(h.drop_last(), capacity);
        assert(step_allowed(counter_after(h.take(n as int)), h[n as int], capacity));
        assert(h.last() == h[n as int]);
    }
}

/// Bound invariant, stated at each instant of a history: at no point do
/// more admitted units of work hold slots than the capacity allows.
pub proof fn lemma_bound_invariant_at(h: Seq<GateEvent>, capacity: usize, n: int)
    requires
        valid_history(h, capacity),
        0 <= n <= h.len(),
    ensures
        0 <= counter_after(h.take(n)) <= capacity,
{
    lemma_prefix_valid(h, capacity, n);
    lemma_bound_invariant(h.take(n), capacity);
}

/// Guard leak-freedom, counting form: each admission raises the counter by
/// exactly one and each release lowers it by exactly one, so the counter
/// always equals the number of admitted units of work whose slot has not
/// yet been given back.
pub proof fn lemma_counter_counts(h: Seq<GateEvent>)
    ensures
        counter_after(h) == admit_count(h) - release_count(h),
    decreases h.len(),
{
    if h.len() > 0 {
        lemma_counter_counts(h.drop_last());
    }
}

/// Guard leak-freedom: once every admitted unit of work has released its
/// slot exactly once, the counter is back to zero — no slot leaks, and no
/// slot is given back twice.
pub proof fn lemma_all_released_counter_zero(h: Seq<GateEvent>)
    requires
        admit_count(h) == release_count(h),
    ensures
        counter_after(h) == 0,
{
    lemma_counter_counts(h);
}

/// Any allowed event extends a history a pool can go through into a longer
/// one, moving the counter by the event's delta.
pub proof fn lemma_step_extends_history(h: Seq<GateEvent>, e: GateEvent, capacity: usize)
    requires
        valid_history(h, capacity),
        step_allowed(counter_after(h), e, capacity),
    ensures
        valid_history(h.push(e), capacity),
        counter_after(h.push(e)) == counter_after(h) + step_delta(e),
{
    let hp = h.push(e);
    assert forall|i: int|
        0 <= i < hp.len() implies step_allowed(
        counter_after(hp.take(i)),
        #[trigger] hp[i],
        capacity,
    ) by {
        if i < h.len() {
            assert(hp.take(i) =~= h.take(i));
            assert(hp[i] == h[i]);
        } else {
            assert(hp.take(i) =~= h);
            assert(hp[i] == e);
        }
    }
    assert(hp.drop_last() =~= h);
    assert(hp.last() == e);
}

/// Eventual admission, one poll at a time: once every previously-admitted
/// unit of work has completed and released its slot, a gate with nonzero
/// capacity admits a waiting request at its very next poll — the admission
/// is an allowed step. The admission loop re-checks the counter at each
/// poll interval, so an enabled admission is taken.
pub proof fn lemma_eventual_admission(h: Seq<GateEvent>, capacity: usize)
    requires
        valid_history(h, capacity),
        capacity > 0,
        release_count(h) == admit_count(h),
    ensures
        step_allowed(counter_after(h), GateEvent::Admit, capacity),
        valid_history(h.push(GateEvent::Admit), capacity),
{
    lemma_counter_counts(h);
    lemma_step_extends_history(h, GateEvent::Admit, capacity);
}

/// Zero-capacity behaviour: a gate with capacity zero never admits any
/// work, so its counter never leaves zero.
pub proof fn lemma_zero_capacity_never_admits(h: Seq<GateEvent>)
    requires
        valid_history(h, 0),
    ensures
        admit_count(h) == 0,
        counter_after(h) == 0,
    decreases h.len(),
{
    if h.len() > 0 {
        let n = h.len() - 1;
        lemma_prefix_valid(h, 0, n as int);
        assert(h.take(n as int) =~= h.drop_last());
        lemma_zero_capacity_never_admits(h.drop_last());
        assert(step_allowed(counter_after(h.take(n as int)), h[n as int], 0));
    }
}

} // verus!
