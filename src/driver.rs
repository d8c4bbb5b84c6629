//! Run statistics and the decisions of a benchmark run: when a worker may
//! submit, waits, or stops, how completions are counted, when the run is
//! aborted, and when statistics are snapshotted. The caller performs the
//! waits and submissions and reports back.

use vstd::prelude::*;
use crate::throttle::{
    InFlightLimiter, InFlightToken, RateController, lemma_outstanding_within_capacity, wait_nanos,
};
use crate::workload::{
    BenchError, Generator, Operation, OperationKind, WorkloadSpec, in_flight_limit, kind_at,
};

verus! {

/// Counts for one operation kind.
#[derive(Clone, Copy, Debug, PartialEq, Eq, Structural)]
pub struct KindStats {
    pub submitted: u64,
    pub succeeded: u64,
    pub failed: u64,
}

/// Completed operations by latency, in buckets bounded at 1 ms, 10 ms,
/// 100 ms and 1 s.
#[derive(Clone, Copy, Debug, PartialEq, Eq, Structural)]
pub struct LatencyHistogram {
    pub under_1ms: u64,
    pub under_10ms: u64,
    pub under_100ms: u64,
    pub under_1s: u64,
    pub at_least_1s: u64,
}

impl LatencyHistogram {
    /// Operations counted in all buckets together.
    pub open spec fn total(&self) -> int {
        self.under_1ms + self.under_10ms + self.under_100ms + self.under_1s + self.at_least_1s
    }

    /// The histogram with one more operation of `latency_nanos` counted in
    /// its bucket.
    pub open spec fn with(&self, latency_nanos: u64) -> LatencyHistogram {
        if latency_nanos < 1_000_000 {
            LatencyHistogram { under_1ms: (self.under_1ms + 1) as u64, ..*self }
        } else if latency_nanos < 10_000_000 {
            LatencyHistogram { under_10ms: (self.under_10ms + 1) as u64, ..*self }
        } else if latency_nanos < 100_000_000 {
            LatencyHistogram { under_100ms: (self.under_100ms + 1) as u64, ..*self }
        } else if latency_nanos < 1_000_000_000 {
            LatencyHistogram { under_1s: (self.under_1s + 1) as u64, ..*self }
        } else {
            LatencyHistogram { at_least_1s: (self.at_least_1s + 1) as u64, ..*self }
        }
    }

    /// Counts one operation of `latency_nanos` in its bucket.
    pub fn record(&mut self, latency_nanos: u64)
        requires
            old(self).total() < u64::MAX,
        ensures
            *final(self) == old(self).with(latency_nanos),
            final(self).total() == old(self).total() + 1,
    {
        if latency_nanos < 1_000_000 {
            self.under_1ms = self.under_1ms + 1;
        } else if latency_nanos < 10_000_000 {
            self.under_10ms = self.under_10ms + 1;
        } else if latency_nanos < 100_000_000 {
            self.under_100ms = self.under_100ms + 1;
        } else if latency_nanos < 1_000_000_000 {
            self.under_1s = self.under_1s + 1;
        } else {
            self.at_least_1s = self.at_least_1s + 1;
        }
    }
}

/// Aggregate counts of a run, per operation kind, and the latencies of the
/// completed operations.
#[derive(Clone, Copy, Debug, PartialEq, Eq, Structural)]
pub struct RunStatistics {
    pub transfer: KindStats,
    pub shared_counter: KindStats,
    /// Sum of the latencies of completed operations, in nanoseconds,
    /// saturating at `u64::MAX`.
    pub total_latency_nanos: u64,
    /// Largest latency of a completed operation, in nanoseconds.
    pub max_latency_nanos: u64,
    pub latency_histogram: LatencyHistogram,
}

/// `a + b`, capped at `u64::MAX`.
pub open spec fn sat_add(a: u64, b: u64) -> u64 {
    if a + b > u64::MAX {
        u64::MAX
    } else {
        (a + b) as u64
    }
}

/// Statistics with nothing counted.
pub open spec fn zero_stats() -> RunStatistics {
    RunStatistics {
        transfer: KindStats { submitted: 0, succeeded: 0, failed: 0 },
        shared_counter: KindStats { submitted: 0, succeeded: 0, failed: 0 },
        total_latency_nanos: 0,
        max_latency_nanos: 0,
        latency_histogram: LatencyHistogram {
            under_1ms: 0,
            under_10ms: 0,
            under_100ms: 0,
            under_1s: 0,
            at_least_1s: 0,
        },
    }
}

impl RunStatistics {
    /// The counts of `kind`.
    pub open spec fn of(&self, kind: OperationKind) -> KindStats {
        match kind {
            OperationKind::Transfer => self.transfer,
            OperationKind::SharedCounter => self.shared_counter,
        }
    }

    pub open spec fn total_submitted(&self) -> int {
        self.transfer.submitted + self.shared_counter.submitted
    }

    pub open spec fn total_succeeded(&self) -> int {
        self.transfer.succeeded + self.shared_counter.succeeded
    }

    pub open spec fn total_failed(&self) -> int {
        self.transfer.failed + self.shared_counter.failed
    }

    /// Operations whose outcome has been counted.
    pub open spec fn total_completed(&self) -> int {
        self.total_succeeded() + self.total_failed()
    }

    /// No operation counted yet.
    pub fn new() -> (r: RunStatistics)
        ensures
            r == zero_stats(),
    {
        RunStatistics {
            transfer: KindStats { submitted: 0, succeeded: 0, failed: 0 },
            shared_counter: KindStats { submitted: 0, succeeded: 0, failed: 0 },
            total_latency_nanos: 0,
            max_latency_nanos: 0,
            latency_histogram: LatencyHistogram {
                under_1ms: 0,
                under_10ms: 0,
                under_100ms: 0,
                under_1s: 0,
                at_least_1s: 0,
            },
        }
    }

    /// Submitted operations, all kinds together.
    pub fn submitted(&self) -> (r: u64)
        requires
            self.total_submitted() <= u64::MAX,
        ensures
            r == self.total_submitted(),
    {
        self.transfer.submitted + self.shared_counter.submitted
    }

    /// Counts one submission of `kind`.
    pub fn record_submitted(&mut self, kind: OperationKind)
        requires
            old(self).of(kind).submitted < u64::MAX,
        ensures
            final(self).of(kind) == (KindStats {
                submitted: (old(self).of(kind).submitted + 1) as u64,
                ..old(self).of(kind)
            }),
            forall|k: OperationKind| k != kind ==> final(self).of(k) == old(self).of(k),
            final(self).total_latency_nanos == old(self).total_latency_nanos,
            final(self).max_latency_nanos == old(self).max_latency_nanos,
            final(self).latency_histogram == old(self).latency_histogram,
    {
        match kind {
            OperationKind::Transfer => self.transfer.submitted = self.transfer.submitted + 1,
            OperationKind::SharedCounter => self.shared_counter.submitted = self.shared_counter.submitted + 1,
        }
    }

    /// Counts the outcome of one operation of `kind` that took
    /// `latency_nanos`.
    pub fn record_outcome(&mut self, kind: OperationKind, success: bool, latency_nanos: u64)
        requires
            success ==> old(self).of(kind).succeeded < u64::MAX,
            !success ==> old(self).of(kind).failed < u64::MAX,
            old(self).latency_histogram.total() < u64::MAX,
        ensures
            final(self).latency_histogram == old(self).latency_histogram.with(latency_nanos),
            final(self).of(kind) == (if success {
                KindStats { succeeded: (old(self).of(kind).succeeded + 1) as u64, ..old(self).of(kind) }
            } else {
                KindStats { failed: (old(self).of(kind).failed + 1) as u64, ..old(self).of(kind) }
            }),
            forall|k: OperationKind| k != kind ==> final(self).of(k) == old(self).of(k),
            final(self).total_latency_nanos == sat_add(old(self).total_latency_nanos, latency_nanos),
            final(self).max_latency_nanos == (if latency_nanos > old(self).max_latency_nanos {
                latency_nanos
            } else {
                old(self).max_latency_nanos
            }),
    {
        match (kind, success) {
            (OperationKind::Transfer, true) => self.transfer.succeeded = self.transfer.succeeded + 1,
            (OperationKind::Transfer, false) => self.transfer.failed = self.transfer.failed + 1,
            (OperationKind::SharedCounter, true) => self.shared_counter.succeeded = self.shared_counter.succeeded + 1,
            (OperationKind::SharedCounter, false) => self.shared_counter.failed = self.shared_counter.failed + 1,
        }
        self.total_latency_nanos = if self.total_latency_nanos > u64::MAX - latency_nanos {
            u64::MAX
        } else {
            self.total_latency_nanos + latency_nanos
        };
        if latency_nanos > self.max_latency_nanos {
            self.max_latency_nanos = latency_nanos;
        }
        self.latency_histogram.record(latency_nanos);
    }
}

/// When a run stops issuing new operations.
#[derive(Clone, Copy, Debug, PartialEq, Eq, Structural)]
pub enum StopCondition {
    /// After this many nanoseconds from the start.
    Duration { nanos: u64 },
    /// After this many operations were issued.
    OperationCount { count: u64 },
    /// Only when a stop is signalled.
    Cancellation,
}

/// What a worker is to do next.
#[derive(Clone, Copy, Debug, PartialEq, Eq, Structural)]
pub enum Action {
    /// Submit `op`, then report its outcome with `token`.
    Submit { op: Operation, token: InFlightToken },
    /// Ask again after this many nanoseconds.
    Wait { nanos: u64 },
    /// All in-flight slots are taken: ask again after a completion.
    Backpressure,
    /// Issue nothing more; finish the operation in hand and exit.
    Stop,
}

/// The result of a run: its statistics, and the error that ended it early,
/// if any.
#[derive(Clone, Copy, Debug, PartialEq, Eq, Structural)]
pub struct RunReport {
    pub stats: RunStatistics,
    pub error: Option<BenchError>,
}

/// Whether failures exceed `max_failure_percent` percent of the completed
/// operations.
pub open spec fn failure_rate_exceeded(stats: RunStatistics, max_failure_percent: u64) -> bool {
    stats.total_failed() * 100 > max_failure_percent * stats.total_completed()
}

/// Starts runs that share one statistics collection interval.
#[derive(Clone, Copy, Debug, PartialEq, Eq, Structural)]
pub struct BenchDriver {
    /// Nanoseconds between two snapshots of the statistics.
    pub stat_collection_interval: u64,
}

impl BenchDriver {
    pub fn new(stat_collection_interval: u64) -> (r: BenchDriver)
        requires
            stat_collection_interval > 0,
        ensures
            r.stat_collection_interval == stat_collection_interval,
    {
        BenchDriver { stat_collection_interval }
    }

    /// A run of `spec` that stops on `stop` and aborts once failures exceed
    /// `max_failure_percent` percent of completions, or `InvalidSpec` for a
    /// malformed workload, in which case nothing is started. Its workers may
    /// run `num_workers` operations ahead of the target rate.
    pub fn start(&self, spec: WorkloadSpec, stop: StopCondition, max_failure_percent: u64) -> (r: Result<Run, BenchError>)
        requires
            self.stat_collection_interval > 0,
        ensures
            spec.fault() matches Some(f) ==> r is Err && r->Err_0 == BenchError::InvalidSpec(f),
            r is Ok <==> spec.valid(),
            r matches Ok(run) ==> {
                &&& run.wf()
                &&& run.workload() == spec
                &&& run.stop_condition() == stop
                &&& run.max_failure_percent() == max_failure_percent
                &&& run.interval() == self.stat_collection_interval
                &&& run.next_snapshot() == self.stat_collection_interval
                &&& run.issued() == 0
                &&& run.outstanding() == 0
                &&& run.stats() == zero_stats()
                &&& !run.stopping()
                &&& !run.aborted()
            },
    {
        let generator = match Generator::build(spec) {
            Ok(g) => g,
            Err(e) => {
                return Err(e);
            },
        };
        let limiter = InFlightLimiter::for_workload(&spec);
        Ok(
            Run {
                generator,
                rate: RateController::new(spec.target_qps, spec.num_workers),
                limiter,
                stats: RunStatistics::new(),
                issued: 0,
                stop,
                stop_requested: false,
                aborted: false,
                max_failure_percent,
                interval: self.stat_collection_interval,
                next_snapshot: self.stat_collection_interval,
            },
        )
    }
}

/// The shared state of one run of one workload.
pub struct Run {
    generator: Generator,
    rate: RateController,
    limiter: InFlightLimiter,
    stats: RunStatistics,
    issued: u64,
    stop: StopCondition,
    stop_requested: bool,
    aborted: bool,
    max_failure_percent: u64,
    interval: u64,
    next_snapshot: u64,
}

impl Run {
    pub closed spec fn workload(&self) -> WorkloadSpec {
        self.generator.workload()
    }

    pub closed spec fn stats(&self) -> RunStatistics {
        self.stats
    }

    /// Operations issued so far.
    pub closed spec fn issued(&self) -> u64 {
        self.issued
    }

    /// Submitted operations whose outcome is not yet reported.
    pub closed spec fn outstanding(&self) -> nat {
        self.limiter.outstanding()
    }

    /// Whether `t` stands for a submission whose outcome is not yet reported.
    pub closed spec fn holds(&self, t: InFlightToken) -> bool {
        self.limiter.holds(t)
    }

    /// The most operations that may be outstanding at once.
    pub closed spec fn in_flight_capacity(&self) -> u64 {
        self.limiter.capacity()
    }

    pub closed spec fn stop_condition(&self) -> StopCondition {
        self.stop
    }

    pub closed spec fn max_failure_percent(&self) -> u64 {
        self.max_failure_percent
    }

    pub closed spec fn interval(&self) -> u64 {
        self.interval
    }

    /// When the next snapshot of the statistics is due.
    pub closed spec fn next_snapshot(&self) -> u64 {
        self.next_snapshot
    }

    /// The run was aborted for too many failures.
    pub closed spec fn aborted(&self) -> bool {
        self.aborted
    }

    /// No new operation will be issued.
    pub closed spec fn stopping(&self) -> bool {
        self.stop_requested || self.aborted
    }

    /// Whether, at time `now`, the run must issue nothing more.
    pub open spec fn must_stop(&self, now: u64) -> bool {
        self.stopping() || self.issued() == u64::MAX || match self.stop_condition() {
            StopCondition::Duration { nanos } => now >= nanos,
            StopCondition::OperationCount { count } => self.issued() >= count,
            StopCondition::Cancellation => false,
        }
    }

    /// The state is consistent: every issued operation is counted as
    /// submitted, and is either completed or holds an in-flight slot.
    pub closed spec fn wf(&self) -> bool {
        &&& self.generator.wf()
        &&& self.generator.drawn() == self.issued as nat
        &&& self.generator.seed() is None
        &&& self.rate.wf()
        &&& self.rate.target_qps == self.generator.workload().target_qps
        &&& self.rate.burst == self.generator.workload().num_workers
        &&& self.limiter.wf()
        &&& self.limiter.capacity() == in_flight_limit(
            self.generator.workload().target_qps,
            self.generator.workload().in_flight_ratio,
        )
        &&& self.limiter.handed_out() == self.issued
        &&& self.stats.total_submitted() == self.issued
        &&& self.stats.total_completed() + self.limiter.outstanding() == self.issued
        &&& self.stats.latency_histogram.total() == self.stats.total_completed()
        &&& self.interval > 0
    }

    /// The next step of a worker at time `now` (nanoseconds from the start):
    /// stop once the run is stopping or its stop condition is reached; else
    /// wait while ahead of the target rate; else wait for a slot while all
    /// are taken; else draw the next operation and take a slot for it.
    pub fn next_action(&mut self, now: u64) -> (r: Action)
        requires
            old(self).wf(),
        ensures
            final(self).wf(),
            final(self).workload() == old(self).workload(),
            final(self).stop_condition() == old(self).stop_condition(),
            final(self).aborted() == old(self).aborted(),
            final(self).next_snapshot() == old(self).next_snapshot(),
            final(self).interval() == old(self).interval(),
            final(self).max_failure_percent() == old(self).max_failure_percent(),
            old(self).must_stop(now) ==> {
                &&& r == Action::Stop
                &&& final(self).stopping()
                &&& final(self).issued() == old(self).issued()
                &&& final(self).stats() == old(self).stats()
                &&& final(self).outstanding() == old(self).outstanding()
                &&& forall|t: InFlightToken| final(self).holds(t) == old(self).holds(t)
            },
            !old(self).must_stop(now) ==> {
                let wait = wait_nanos(
                    old(self).workload().target_qps,
                    old(self).workload().num_workers,
                    old(self).issued(),
                    now,
                );
                if wait > 0 {
                    r == (Action::Wait { nanos: wait }) && *final(self) == *old(self)
                } else if old(self).outstanding() >= old(self).in_flight_capacity() {
                    r == Action::Backpressure && *final(self) == *old(self)
                } else {
                    let kind = kind_at(old(self).workload(), old(self).issued() as nat);
                    &&& r == (Action::Submit {
                        op: Operation {
                            kind,
                            owner: old(self).workload().owner,
                            gas_id: old(self).workload().primary_gas_id,
                        },
                        token: r->token,
                    })
                    &&& !old(self).holds(r->token)
                    &&& final(self).holds(r->token)
                    &&& forall|t: InFlightToken| t != r->token ==> final(self).holds(t) == old(self).holds(t)
                    &&& final(self).issued() == old(self).issued() + 1
                    &&& final(self).outstanding() == old(self).outstanding() + 1
                    &&& final(self).stats().of(kind) == (KindStats {
                        submitted: (old(self).stats().of(kind).submitted + 1) as u64,
                        ..old(self).stats().of(kind)
                    })
                    &&& forall|k: OperationKind| k != kind ==> final(self).stats().of(k) == old(self).stats().of(k)
                    &&& final(self).stats().latency_histogram == old(self).stats().latency_histogram
                    &&& !final(self).stopping()
                }
            },
    {
        let reached = match self.stop {
            StopCondition::Duration { nanos } => now >= nanos,
            StopCondition::OperationCount { count } => self.issued >= count,
            StopCondition::Cancellation => false,
        };
        if self.stop_requested || self.aborted || self.issued == u64::MAX || reached {
            self.stop_requested = true;
            return Action::Stop;
        }
        let wait = self.rate.throttle(self.issued, now);
        if wait > 0 {
            return Action::Wait { nanos: wait };
        }
        let token = match self.limiter.try_acquire() {
            Some(t) => t,
            None => {
                return Action::Backpressure;
            },
        };
        let op = self.generator.next();
        let ghost before = self.stats;
        self.stats.record_submitted(op.kind);
        proof {
            let other = if op.kind == OperationKind::Transfer {
                OperationKind::SharedCounter
            } else {
                OperationKind::Transfer
            };
            assert(self.stats.of(other) == before.of(other));
        }
        self.issued = self.issued + 1;
        Action::Submit { op, token }
    }

    /// Reports the outcome of the submission that holds `t`, of kind `kind`,
    /// which took `latency_nanos`, and gives its slot back. A token that is
    /// not outstanding (already reported, or of another run) changes
    /// nothing. The run is aborted once failures exceed the configured share
    /// of completions. Returns whether the outcome was counted.
    pub fn complete(&mut self, t: InFlightToken, kind: OperationKind, success: bool, latency_nanos: u64) -> (r: bool)
        requires
            old(self).wf(),
        ensures
            final(self).wf(),
            final(self).workload() == old(self).workload(),
            final(self).stop_condition() == old(self).stop_condition(),
            final(self).next_snapshot() == old(self).next_snapshot(),
            final(self).interval() == old(self).interval(),
            final(self).max_failure_percent() == old(self).max_failure_percent(),
            final(self).issued() == old(self).issued(),
            r == old(self).holds(t),
            !final(self).holds(t),
            forall|u: InFlightToken| u != t ==> final(self).holds(u) == old(self).holds(u),
            !r ==> *final(self) == *old(self),
            r ==> {
                &&& final(self).outstanding() == old(self).outstanding() - 1
                &&& final(self).stats().of(kind) == (if success {
                    KindStats {
                        succeeded: (old(self).stats().of(kind).succeeded + 1) as u64,
                        ..old(self).stats().of(kind)
                    }
                } else {
                    KindStats {
                        failed: (old(self).stats().of(kind).failed + 1) as u64,
                        ..old(self).stats().of(kind)
                    }
                })
                &&& forall|k: OperationKind| k != kind ==> final(self).stats().of(k) == old(self).stats().of(k)
                &&& final(self).stats().total_latency_nanos == sat_add(
                    old(self).stats().total_latency_nanos,
                    latency_nanos,
                )
                &&& final(self).stats().max_latency_nanos == (if latency_nanos > old(self).stats().max_latency_nanos {
                    latency_nanos
                } else {
                    old(self).stats().max_latency_nanos
                })
                &&& final(self).stats().latency_histogram == old(self).stats().latency_histogram.with(
                    latency_nanos,
                )
                &&& final(self).aborted() == (old(self).aborted() || failure_rate_exceeded(
                    final(self).stats(),
                    old(self).max_failure_percent(),
                ))
                &&& final(self).stopping() == (old(self).stopping() || final(self).aborted())
            },
    {
        let ghost before = *self;
        let was_out = self.limiter.release(t);
        if !was_out {
            return false;
        }
        self.stats.record_outcome(kind, success, latency_nanos);
        proof {
            let other = if kind == OperationKind::Transfer {
                OperationKind::SharedCounter
            } else {
                OperationKind::Transfer
            };
            assert(self.stats.of(other) == before.stats.of(other));
        }
        let failed: u128 = self.stats.transfer.failed as u128 + self.stats.shared_counter.failed as u128;
        let completed: u128 = failed + self.stats.transfer.succeeded as u128
            + self.stats.shared_counter.succeeded as u128;
        assert(completed <= 0xffff_ffff_ffff_ffff);
        assert((self.max_failure_percent as u128) * completed <= 0xffff_ffff_ffff_ffff
            * 0xffff_ffff_ffff_ffff) by (nonlinear_arith)
            requires
                completed <= 0xffff_ffff_ffff_ffff,
                self.max_failure_percent <= 0xffff_ffff_ffff_ffff,
        ;
        if failed * 100 > (self.max_failure_percent as u128) * completed {
            self.aborted = true;
        }
        true
    }

    /// Asks the run to stop: no operation is issued after this, while those
    /// in flight may still complete.
    pub fn signal_stop(&mut self)
        requires
            old(self).wf(),
        ensures
            final(self).wf(),
            final(self).stopping(),
            final(self).workload() == old(self).workload(),
            final(self).stop_condition() == old(self).stop_condition(),
            final(self).aborted() == old(self).aborted(),
            final(self).next_snapshot() == old(self).next_snapshot(),
            final(self).interval() == old(self).interval(),
            final(self).max_failure_percent() == old(self).max_failure_percent(),
            final(self).issued() == old(self).issued(),
            final(self).stats() == old(self).stats(),
            final(self).outstanding() == old(self).outstanding(),
            forall|t: InFlightToken| final(self).holds(t) == old(self).holds(t),
    {
        self.stop_requested = true;
    }

    /// The statistics so far when a snapshot is due at time `now`, after
    /// which the next one is due one interval later; `None` otherwise.
    pub fn snapshot(&mut self, now: u64) -> (r: Option<RunStatistics>)
        requires
            old(self).wf(),
        ensures
            final(self).wf(),
            now < old(self).next_snapshot() ==> r is None && *final(self) == *old(self),
            now >= old(self).next_snapshot() ==> {
                &&& r == Some(old(self).stats())
                &&& final(self).next_snapshot() == sat_add(now, old(self).interval())
                &&& final(self).workload() == old(self).workload()
                &&& final(self).stop_condition() == old(self).stop_condition()
                &&& final(self).stopping() == old(self).stopping()
                &&& final(self).aborted() == old(self).aborted()
                &&& final(self).interval() == old(self).interval()
                &&& final(self).max_failure_percent() == old(self).max_failure_percent()
                &&& final(self).issued() == old(self).issued()
                &&& final(self).stats() == old(self).stats()
                &&& final(self).outstanding() == old(self).outstanding()
                &&& forall|t: InFlightToken| final(self).holds(t) == old(self).holds(t)
            },
    {
        if now < self.next_snapshot {
            return None;
        }
        self.next_snapshot = if now > u64::MAX - self.interval {
            u64::MAX
        } else {
            now + self.interval
        };
        Some(self.stats)
    }

    /// Operations submitted but not yet reported.
    pub fn in_flight(&self) -> (r: u64)
        requires
            self.wf(),
        ensures
            r == self.outstanding(),
    {
        self.limiter.in_flight()
    }

    /// Whether no new operation will be issued.
    pub fn is_stopping(&self) -> (r: bool)
        ensures
            r == self.stopping(),
    {
        self.stop_requested || self.aborted
    }

    /// The final report, once the run is stopping and every in-flight
    /// operation has been reported; `None` before that. An aborted run
    /// reports `RunAborted` beside its statistics.
    pub fn finish(&self) -> (r: Option<RunReport>)
        requires
            self.wf(),
        ensures
            r is Some <==> self.stopping() && self.outstanding() == 0,
            r matches Some(rep) ==> {
                &&& rep.stats == self.stats()
                &&& rep.error == (if self.aborted() {
                    Some(BenchError::RunAborted)
                } else {
                    None
                })
            },
    {
        if !(self.stop_requested || self.aborted) || self.limiter.in_flight() != 0 {
            return None;
        }
        let error = if self.aborted {
            Some(BenchError::RunAborted)
        } else {
            None
        };
        Some(RunReport { stats: self.stats, error })
    }

    /// The statistics so far.
    pub fn stats_now(&self) -> (r: RunStatistics)
        ensures
            r == self.stats(),
    {
        self.stats
    }
}

/// Backpressure holds at every state of a run: the operations in flight
/// never exceed `target_qps * in_flight_ratio`.
pub proof fn lemma_run_in_flight_bounded(run: Run)
    requires
        run.wf(),
    ensures
        run.in_flight_capacity() == in_flight_limit(
            run.workload().target_qps,
            run.workload().in_flight_ratio,
        ),
        run.outstanding() <= run.in_flight_capacity(),
{
    lemma_outstanding_within_capacity(run.limiter);
}

/// No operation goes unaccounted: at every state of a run, each issued
/// operation is counted as submitted and is either completed or in flight,
/// so once nothing is in flight, every submission has its outcome counted;
/// and each completed operation is counted once in the latency histogram.
pub proof fn lemma_every_submission_accounted(run: Run)
    requires
        run.wf(),
    ensures
        run.stats().total_submitted() == run.issued(),
        run.stats().total_completed() + run.outstanding() == run.issued(),
        run.outstanding() == 0 ==> run.stats().total_completed() == run.stats().total_submitted(),
        run.stats().latency_histogram.total() == run.stats().total_completed(),
{
}

/// A run that is stopping issues nothing more: whatever the time, the next
/// step is to stop, and the counts stay as they are.
pub proof fn lemma_no_submission_after_stop(run: Run, now: u64)
    requires
        run.wf(),
        run.stopping(),
    ensures
        run.must_stop(now),
{
}

} // verus!
