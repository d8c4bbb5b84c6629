//! Issuance pacing and backpressure: a rate controller that spaces out
//! submissions to a target rate, and a limiter that bounds how many
//! submissions are outstanding at once.

use vstd::prelude::*;
use crate::workload::{WorkloadSpec, in_flight_limit};

verus! {

/// Nanoseconds in one second.
pub const NANOS_PER_SEC: u64 = 1_000_000_000;

/// The earliest time, in nanoseconds from the start of the run, at which the
/// operation with index `n` (counting from zero) may be issued at `qps`
/// operations per second when `burst` operations may go at once: the first
/// `burst` are due at once, and operation `n` after them when `qps` per second
/// allows `n + 1 - burst` operations, rounded up to a whole nanosecond.
pub open spec fn due_nanos(qps: u64, burst: u64, n: u64) -> int
    recommends
        qps > 0,
{
    if n < burst {
        0
    } else {
        ((n + 1 - burst) * NANOS_PER_SEC + qps - 1) / qps as int
    }
}

/// The wait before issuing operation `n` when `elapsed` nanoseconds have
/// passed: the time left until it is due, never negative, capped at
/// `u64::MAX`.
pub open spec fn wait_nanos(qps: u64, burst: u64, n: u64, elapsed: u64) -> u64
    recommends
        qps > 0,
{
    let due = due_nanos(qps, burst, n);
    if due <= elapsed {
        0
    } else if due - elapsed > u64::MAX {
        u64::MAX
    } else {
        (due - elapsed) as u64
    }
}

/// Paces issuance to `target_qps` operations per second, letting up to
/// `burst` operations run ahead of the schedule.
#[derive(Clone, Copy, Debug, PartialEq, Eq, Structural)]
pub struct RateController {
    pub target_qps: u64,
    pub burst: u64,
}

impl RateController {
    pub open spec fn wf(&self) -> bool {
        self.target_qps > 0
    }

    /// A controller for `target_qps` operations per second.
    pub fn new(target_qps: u64, burst: u64) -> (r: RateController)
        requires
            target_qps > 0,
        ensures
            r.wf(),
            r.target_qps == target_qps,
            r.burst == burst,
    {
        RateController { target_qps, burst }
    }

    /// The delay, in nanoseconds, before the next operation may be issued,
    /// given that `n_issued` operations were issued in the first `elapsed`
    /// nanoseconds of the run. It is zero whenever issuance is behind or on
    /// schedule.
    pub fn throttle(&self, n_issued: u64, elapsed: u64) -> (r: u64)
        requires
            self.wf(),
        ensures
            r == wait_nanos(self.target_qps, self.burst, n_issued, elapsed),
            due_nanos(self.target_qps, self.burst, n_issued) <= elapsed ==> r == 0,
            r < u64::MAX ==> elapsed + r >= due_nanos(self.target_qps, self.burst, n_issued),
    {
        if n_issued < self.burst {
            return 0;
        }
        let ahead: u128 = (n_issued - self.burst) as u128 + 1;
        assert(ahead * 1_000_000_000 <= 0x1_0000_0000_0000_0000 * 1_000_000_000) by (nonlinear_arith)
            requires
                ahead <= 0x1_0000_0000_0000_0000,
        ;
        let due: u128 = (ahead * (NANOS_PER_SEC as u128) + (self.target_qps as u128) - 1) / (
        self.target_qps as u128);
        if due <= elapsed as u128 {
            0
        } else if due - elapsed as u128 > u64::MAX as u128 {
            u64::MAX
        } else {
            (due - elapsed as u128) as u64
        }
    }
}

/// The schedule paces issuance to the target rate: once the burst is spent,
/// operation `n` is due as soon as `qps` operations per second allow
/// `n + 1 - burst` operations, and less than one operation's interval later.
/// So a run that issues each operation when it is due converges to `qps`
/// operations per second.
pub proof fn lemma_due_paces_rate(qps: u64, burst: u64, n: u64)
    requires
        qps > 0,
        n >= burst,
    ensures
        (n + 1 - burst) * NANOS_PER_SEC <= due_nanos(qps, burst, n) * qps,
        due_nanos(qps, burst, n) * qps < (n + 1 - burst) * NANOS_PER_SEC + qps,
{
    let a = (n + 1 - burst) * NANOS_PER_SEC;
    let d = due_nanos(qps, burst, n);
    assert(d == (a + qps - 1) / qps as int);
    assert(a <= d * qps && d * qps < a + qps) by (nonlinear_arith)
        requires
            d == (a + qps - 1) / qps as int,
            qps > 0,
            a >= 0,
    ;
}

/// A run that honours the controller never gets ahead of the target rate by
/// more than the burst allowance: if operation `n` is issued at time `t` no
/// earlier than it is due, then the `n + 1` operations issued so far are at
/// most `burst` plus what `qps` operations per second allow in `t`
/// nanoseconds.
pub proof fn lemma_issuance_within_burst(qps: u64, burst: u64, n: u64, t: u64)
    requires
        qps > 0,
        t >= due_nanos(qps, burst, n),
    ensures
        (n as int + 1 - burst) * NANOS_PER_SEC <= t * qps,
{
    if n >= burst {
        lemma_due_paces_rate(qps, burst, n);
        let d = due_nanos(qps, burst, n);
        assert(d * qps <= t * qps) by (nonlinear_arith)
            requires
                d <= t,
                qps > 0,
        ;
    } else {
        assert((n as int + 1 - burst) * NANOS_PER_SEC <= 0 <= t * qps) by (nonlinear_arith)
            requires
                n < burst,
                qps > 0,
                t >= 0,
        ;
    }
}

/// One slot of submission capacity, handed out by an `InFlightLimiter`.
#[derive(Clone, Copy, Debug, PartialEq, Eq, Structural)]
pub struct InFlightToken {
    id: u64,
}

impl InFlightToken {
    pub closed spec fn id(&self) -> u64 {
        self.id
    }
}

/// Caps the number of outstanding submissions: a token is taken before each
/// submission and given back when it completes.
pub struct InFlightLimiter {
    capacity: u64,
    next_id: u64,
    live: Vec<u64>,
}

impl InFlightLimiter {
    /// The most tokens that may be outstanding at once.
    pub closed spec fn capacity(&self) -> u64 {
        self.capacity
    }

    /// The identities of the outstanding tokens.
    pub closed spec fn live(&self) -> Seq<u64> {
        self.live@
    }

    /// How many tokens were ever handed out; the next token gets this
    /// identity.
    pub closed spec fn handed_out(&self) -> u64 {
        self.next_id
    }

    /// Whether a fresh token identity is still available.
    pub open spec fn has_fresh_id(&self) -> bool {
        self.handed_out() < u64::MAX
    }

    /// How many tokens are outstanding.
    pub open spec fn outstanding(&self) -> nat {
        self.live().len()
    }

    /// Whether `t` is outstanding.
    pub open spec fn holds(&self, t: InFlightToken) -> bool {
        self.live().contains(t.id())
    }

    pub closed spec fn wf(&self) -> bool {
        &&& self.live@.no_duplicates()
        &&& self.live@.len() <= self.capacity
        &&& forall|i: int| 0 <= i < self.live@.len() ==> #[trigger] self.live@[i] < self.next_id
    }

    /// A limiter with `capacity` slots, none taken.
    pub fn new(capacity: u64) -> (r: InFlightLimiter)
        ensures
            r.wf(),
            r.capacity() == capacity,
            r.outstanding() == 0,
            r.handed_out() == 0,
    {
        InFlightLimiter { capacity, next_id: 0, live: Vec::new() }
    }

    /// A limiter for `spec`: `target_qps * in_flight_ratio` slots.
    pub fn for_workload(spec: &WorkloadSpec) -> (r: InFlightLimiter)
        ensures
            r.wf(),
            r.capacity() == in_flight_limit(spec.target_qps, spec.in_flight_ratio),
            r.outstanding() == 0,
            r.handed_out() == 0,
    {
        InFlightLimiter::new(spec.max_in_flight())
    }

    /// The most tokens that may be outstanding at once.
    pub fn capacity_value(&self) -> (r: u64)
        ensures
            r == self.capacity(),
    {
        self.capacity
    }

    /// How many tokens are outstanding.
    pub fn in_flight(&self) -> (r: u64)
        requires
            self.wf(),
        ensures
            r == self.outstanding(),
    {
        self.live.len() as u64
    }

    /// Takes a slot if one is free. `None` means the caller must wait for a
    /// release (or that the limiter has handed out all `u64::MAX` identities).
    pub fn try_acquire(&mut self) -> (r: Option<InFlightToken>)
        requires
            old(self).wf(),
        ensures
            final(self).wf(),
            final(self).capacity() == old(self).capacity(),
            r is Some <==> old(self).outstanding() < old(self).capacity() && old(self).has_fresh_id(),
            r is None ==> *final(self) == *old(self),
            r matches Some(t) ==> {
                &&& t.id() == old(self).handed_out()
                &&& final(self).handed_out() == old(self).handed_out() + 1
                &&& !old(self).holds(t)
                &&& final(self).live() == old(self).live().push(t.id())
                &&& final(self).holds(t)
                &&& forall|u: InFlightToken| u != t ==> (final(self).holds(u) <==> old(self).holds(u))
            },
    {
        if self.live.len() as u64 >= self.capacity || self.next_id == u64::MAX {
            return None;
        }
        let id = self.next_id;
        self.live.push(id);
        self.next_id = self.next_id + 1;
        proof {
            assert(forall|i: int| 0 <= i < old(self).live@.len() ==> old(self).live@[i] != id);
            assert(self.live@.no_duplicates()) by {
                assert forall|i: int, j: int|
                    0 <= i < self.live@.len() && 0 <= j < self.live@.len() && i != j
                    implies self.live@[i] != self.live@[j] by {
                    if i < old(self).live@.len() && j < old(self).live@.len() {
                        assert(old(self).live@[i] != old(self).live@[j]);
                    }
                }
            }
            assert(forall|i: int| 0 <= i < self.live@.len() ==> #[trigger] self.live@[i] < self.next_id) by {
                assert forall|i: int| 0 <= i < self.live@.len() implies #[trigger] self.live@[i] < self.next_id by {
                    if i < old(self).live@.len() {
                        assert(old(self).live@[i] < old(self).next_id);
                    }
                }
            }
        }
        let t = InFlightToken { id };
        proof {
            assert(self.live@[self.live@.len() - 1] == id);
            assert forall|u: InFlightToken| u != t implies (self.holds(u) <==> old(self).holds(u)) by {
                assert(u.id != id);
                if old(self).holds(u) {
                    let k = choose|k: int| 0 <= k < old(self).live@.len() && old(self).live@[k] == u.id;
                    assert(self.live@[k] == u.id);
                }
                if self.holds(u) {
                    let k = choose|k: int| 0 <= k < self.live@.len() && self.live@[k] == u.id;
                    assert(old(self).live@[k] == u.id);
                }
            }
        }
        Some(t)
    }

    /// Gives a slot back. Releasing a token that is not outstanding, such as
    /// one released before, changes nothing. Returns whether `t` was
    /// outstanding.
    pub fn release(&mut self, t: InFlightToken) -> (r: bool)
        requires
            old(self).wf(),
        ensures
            final(self).wf(),
            final(self).capacity() == old(self).capacity(),
            final(self).handed_out() == old(self).handed_out(),
            r == old(self).holds(t),
            !r ==> *final(self) == *old(self),
            !final(self).holds(t),
            final(self).outstanding() == old(self).outstanding() - (if r { 1int } else { 0int }),
            forall|u: InFlightToken| u != t ==> (final(self).holds(u) <==> old(self).holds(u)),
    {
        let mut i: usize = 0;
        while i < self.live.len()
            invariant
                *self == *old(self),
                self.wf(),
                0 <= i <= self.live@.len(),
                forall|j: int| 0 <= j < i ==> self.live@[j] != t.id,
            decreases self.live@.len() - i,
        {
            if self.live[i] == t.id {
                let ghost before = self.live@;
                self.live.remove(i);
                proof {
                    assert forall|x: u64| #[trigger] self.live@.contains(x) <==> (before.contains(x) && x != t.id) by {
                        if self.live@.contains(x) {
                            let k = choose|k: int| 0 <= k < self.live@.len() && self.live@[k] == x;
                            if k < i {
                                assert(before[k] == x);
                            } else {
                                assert(before[k + 1] == x);
                                assert(k + 1 != i as int);
                            }
                        }
                        if before.contains(x) && x != t.id {
                            let k = choose|k: int| 0 <= k < before.len() && before[k] == x;
                            if k < i {
                                assert(self.live@[k] == x);
                            } else {
                                assert(k != i as int);
                                assert(self.live@[k - 1] == x);
                            }
                        }
                    }
                    assert forall|u: InFlightToken| u != t implies (self.holds(u) <==> old(self).holds(u)) by {
                        assert(u.id != t.id);
                    }
                    assert(self.live@.no_duplicates()) by {
                        assert forall|a: int, b: int|
                            0 <= a < self.live@.len() && 0 <= b < self.live@.len() && a != b
                            implies self.live@[a] != self.live@[b] by {
                            let a2 = if a < i { a } else { a + 1 };
                            let b2 = if b < i { b } else { b + 1 };
                            assert(self.live@[a] == before[a2]);
                            assert(self.live@[b] == before[b2]);
                        }
                    }
                    assert forall|k: int| 0 <= k < self.live@.len() implies #[trigger] self.live@[k] < self.next_id by {
                        let k2 = if k < i { k } else { k + 1 };
                        assert(self.live@[k] == before[k2]);
                    }
                }
                return true;
            }
            i = i + 1;
        }
        proof {
            assert(!self.live@.contains(t.id)) by {
                if self.live@.contains(t.id) {
                    let k = choose|k: int| 0 <= k < self.live@.len() && self.live@[k] == t.id;
                    assert(self.live@[k] != t.id);
                }
            }
        }
        false
    }
}

/// The backpressure bound: whatever sequence of acquisitions and releases a
/// limiter has seen, its outstanding tokens never exceed its capacity, which
/// for a workload is `target_qps * in_flight_ratio`.
pub proof fn lemma_outstanding_within_capacity(l: InFlightLimiter)
    requires
        l.wf(),
    ensures
        l.outstanding() <= l.capacity(),
{
}

} // verus!
