//! Workload descriptors, their validation, and the generator that draws
//! operations in the configured mix.

use vstd::prelude::*;
use vstd::arithmetic::div_mod::{lemma_fundamental_div_mod, lemma_fundamental_div_mod_converse};
use crate::latency::{SimRng, nth_draw};

verus! {

/// The kinds of operation a workload mixes.
#[derive(Clone, Copy, Debug, PartialEq, Eq, Structural)]
pub enum OperationKind {
    /// Transfer an owned object between accounts.
    Transfer,
    /// Increment a counter object shared by all senders.
    SharedCounter,
}

/// Why a workload descriptor was refused.
#[derive(Clone, Copy, Debug, PartialEq, Eq, Structural)]
pub enum SpecFault {
    ZeroTargetQps,
    ZeroWorkers,
    ZeroInFlightRatio,
    ZeroTotalWeight,
    /// Transfers are weighted in, but there is no account to transfer to.
    NoTransferAccounts,
}

/// Errors of a benchmark run.
#[derive(Clone, Copy, Debug, PartialEq, Eq, Structural)]
pub enum BenchError {
    /// The workload descriptor is malformed; raised at construction only.
    InvalidSpec(SpecFault),
    /// One submission failed; it is counted and the run goes on.
    SubmissionFailure,
    /// The failure rate went over the configured threshold.
    RunAborted,
}

/// An immutable, validated description of one workload.
#[derive(Clone, Copy, Debug, PartialEq, Eq, Structural)]
pub struct WorkloadSpec {
    pub target_qps: u64,
    pub num_workers: u64,
    /// Outstanding operations allowed, as a multiple of `target_qps`.
    pub in_flight_ratio: u64,
    /// Object that pays for gas.
    pub primary_gas_id: u64,
    /// Address of the sender.
    pub owner: u64,
    /// Handle of the signing credential, shared read-only by all workers.
    pub keypair: u64,
    pub num_transfer_accounts: u64,
    pub shared_counter_weight: u32,
    pub transfer_object_weight: u32,
}

/// The first fault of a descriptor with these parameters, if any.
pub open spec fn spec_fault(
    target_qps: u64,
    num_workers: u64,
    in_flight_ratio: u64,
    num_transfer_accounts: u64,
    shared_counter_weight: u32,
    transfer_object_weight: u32,
) -> Option<SpecFault> {
    if target_qps == 0 {
        Some(SpecFault::ZeroTargetQps)
    } else if num_workers == 0 {
        Some(SpecFault::ZeroWorkers)
    } else if in_flight_ratio == 0 {
        Some(SpecFault::ZeroInFlightRatio)
    } else if shared_counter_weight as int + transfer_object_weight as int == 0 {
        Some(SpecFault::ZeroTotalWeight)
    } else if transfer_object_weight > 0 && num_transfer_accounts == 0 {
        Some(SpecFault::NoTransferAccounts)
    } else {
        None
    }
}

/// The most operations that may be outstanding at once:
/// `target_qps * in_flight_ratio`, capped at `u64::MAX`.
pub open spec fn in_flight_limit(target_qps: u64, in_flight_ratio: u64) -> u64 {
    if target_qps * in_flight_ratio > u64::MAX {
        u64::MAX
    } else {
        (target_qps * in_flight_ratio) as u64
    }
}

impl WorkloadSpec {
    /// The descriptor holds its invariant.
    pub open spec fn valid(&self) -> bool {
        spec_fault(
            self.target_qps,
            self.num_workers,
            self.in_flight_ratio,
            self.num_transfer_accounts,
            self.shared_counter_weight,
            self.transfer_object_weight,
        ) is None
    }

    /// Sum of the weights.
    pub open spec fn total_weight(&self) -> nat {
        (self.shared_counter_weight + self.transfer_object_weight) as nat
    }

    /// The bound on outstanding operations.
    pub open spec fn spec_in_flight_limit(&self) -> u64 {
        in_flight_limit(self.target_qps, self.in_flight_ratio)
    }

    /// The first fault of the descriptor, if any.
    pub open spec fn fault(&self) -> Option<SpecFault> {
        spec_fault(
            self.target_qps,
            self.num_workers,
            self.in_flight_ratio,
            self.num_transfer_accounts,
            self.shared_counter_weight,
            self.transfer_object_weight,
        )
    }

    /// `Ok` for a valid descriptor, else `InvalidSpec` with its first fault.
    pub fn validate(&self) -> (r: Result<(), BenchError>)
        ensures
            r is Ok <==> self.valid(),
            self.fault() matches Some(f) ==> r == Err::<(), BenchError>(BenchError::InvalidSpec(f)),
    {
        match find_fault(
            self.target_qps,
            self.num_workers,
            self.in_flight_ratio,
            self.num_transfer_accounts,
            self.shared_counter_weight,
            self.transfer_object_weight,
        ) {
            Some(f) => Err(BenchError::InvalidSpec(f)),
            None => Ok(()),
        }
    }

    /// The bound on outstanding operations.
    pub fn max_in_flight(&self) -> (r: u64)
        ensures
            r == self.spec_in_flight_limit(),
    {
        match self.target_qps.checked_mul(self.in_flight_ratio) {
            Some(v) => v,
            None => u64::MAX,
        }
    }
}

/// The first fault of a descriptor with these parameters, if any.
pub fn find_fault(
    target_qps: u64,
    num_workers: u64,
    in_flight_ratio: u64,
    num_transfer_accounts: u64,
    shared_counter_weight: u32,
    transfer_object_weight: u32,
) -> (r: Option<SpecFault>)
    ensures
        r == spec_fault(
            target_qps,
            num_workers,
            in_flight_ratio,
            num_transfer_accounts,
            shared_counter_weight,
            transfer_object_weight,
        ),
{
    if target_qps == 0 {
        Some(SpecFault::ZeroTargetQps)
    } else if num_workers == 0 {
        Some(SpecFault::ZeroWorkers)
    } else if in_flight_ratio == 0 {
        Some(SpecFault::ZeroInFlightRatio)
    } else if shared_counter_weight as u64 + transfer_object_weight as u64 == 0 {
        Some(SpecFault::ZeroTotalWeight)
    } else if transfer_object_weight > 0 && num_transfer_accounts == 0 {
        Some(SpecFault::NoTransferAccounts)
    } else {
        None
    }
}

/// Builds a workload that mixes transfers and shared-counter increments, or
/// refuses a malformed descriptor.
pub fn make_combination_workload(
    target_qps: u64,
    num_workers: u64,
    in_flight_ratio: u64,
    primary_gas_id: u64,
    owner: u64,
    keypair: u64,
    num_transfer_accounts: u64,
    shared_counter_weight: u32,
    transfer_object_weight: u32,
) -> (r: Result<WorkloadSpec, BenchError>)
    ensures
        spec_fault(
            target_qps,
            num_workers,
            in_flight_ratio,
            num_transfer_accounts,
            shared_counter_weight,
            transfer_object_weight,
        ) matches Some(f) ==> r == Err::<WorkloadSpec, BenchError>(BenchError::InvalidSpec(f)),
        spec_fault(
            target_qps,
            num_workers,
            in_flight_ratio,
            num_transfer_accounts,
            shared_counter_weight,
            transfer_object_weight,
        ) is None ==> r == Ok::<WorkloadSpec, BenchError>(
            WorkloadSpec {
                target_qps,
                num_workers,
                in_flight_ratio,
                primary_gas_id,
                owner,
                keypair,
                num_transfer_accounts,
                shared_counter_weight,
                transfer_object_weight,
            },
        ),
        r matches Ok(s) ==> s.valid(),
{
    match find_fault(
        target_qps,
        num_workers,
        in_flight_ratio,
        num_transfer_accounts,
        shared_counter_weight,
        transfer_object_weight,
    ) {
        Some(f) => {
            return Err(BenchError::InvalidSpec(f));
        },
        None => {},
    }
    Ok(
        WorkloadSpec {
            target_qps,
            num_workers,
            in_flight_ratio,
            primary_gas_id,
            owner,
            keypair,
            num_transfer_accounts,
            shared_counter_weight,
            transfer_object_weight,
        },
    )
}

/// The kind that ticket `t`, in `[0, total_weight)`, stands for: the first
/// `transfer_object_weight` tickets are transfers, the rest shared-counter
/// increments.
pub open spec fn kind_of_ticket(spec: WorkloadSpec, t: nat) -> OperationKind {
    if t < spec.transfer_object_weight {
        OperationKind::Transfer
    } else {
        OperationKind::SharedCounter
    }
}

/// The kind of the `n`-th operation (counting from zero) that a cyclic
/// generator draws for `spec`: each block of `total_weight` draws holds the
/// transfers first, then the shared-counter increments.
pub open spec fn kind_at(spec: WorkloadSpec, n: nat) -> OperationKind {
    kind_of_ticket(spec, n % spec.total_weight())
}

/// The kind of the `n`-th operation (counting from zero) that a generator
/// seeded with `seed` draws for `spec`: the ticket is a random draw reduced
/// modulo `total_weight`, so each kind comes with probability close to its
/// weight over the total.
pub open spec fn seeded_kind_at(spec: WorkloadSpec, seed: u64, n: nat) -> OperationKind {
    kind_of_ticket(spec, (nth_draw(seed, n) % (spec.total_weight() as u64)) as nat)
}

/// How many of the first `n` draws for `spec` are of kind `kind`.
pub open spec fn count_kind(spec: WorkloadSpec, kind: OperationKind, n: nat) -> nat
    decreases n,
{
    if n == 0 {
        0
    } else {
        count_kind(spec, kind, (n - 1) as nat) + if kind_at(spec, (n - 1) as nat) == kind {
            1nat
        } else {
            0nat
        }
    }
}

/// A unit of work drawn from a workload, owned by the worker that drew it.
#[derive(Clone, Copy, Debug, PartialEq, Eq, Structural)]
pub struct Operation {
    pub kind: OperationKind,
    pub owner: u64,
    pub gas_id: u64,
}

/// Draws operations for one workload, in its configured mix, without end:
/// either in a fixed cycle of `total_weight` draws, or at random under a seed.
pub struct Generator {
    spec: WorkloadSpec,
    /// Position within the current block of `total_weight` draws.
    ticket: u64,
    drawn: Ghost<nat>,
    seeded: bool,
    seed: u64,
    rng: SimRng,
}

impl Generator {
    /// The workload the generator draws for.
    pub closed spec fn workload(&self) -> WorkloadSpec {
        self.spec
    }

    /// How many operations were drawn since the last restart.
    pub closed spec fn drawn(&self) -> nat {
        self.drawn@
    }

    /// The seed of a random generator; `None` for a cyclic one.
    pub closed spec fn seed(&self) -> Option<u64> {
        if self.seeded {
            Some(self.seed)
        } else {
            None
        }
    }

    /// The kind of the next operation.
    pub open spec fn next_kind(&self) -> OperationKind {
        match self.seed() {
            None => kind_at(self.workload(), self.drawn()),
            Some(seed) => seeded_kind_at(self.workload(), seed, self.drawn()),
        }
    }

    pub closed spec fn wf(&self) -> bool {
        &&& self.spec.valid()
        &&& self.ticket == self.drawn@ % self.spec.total_weight()
        &&& self.rng.wf()
        &&& self.rng.seed() == self.seed
        &&& self.seeded ==> self.rng.steps() == self.drawn@
    }

    /// A cyclic generator at the start of its sequence, or `InvalidSpec` for
    /// a malformed workload.
    pub fn build(spec: WorkloadSpec) -> (r: Result<Generator, BenchError>)
        ensures
            spec.fault() matches Some(f) ==> r == Err::<Generator, BenchError>(BenchError::InvalidSpec(f)),
            r is Ok <==> spec.valid(),
            r matches Ok(g) ==> {
                &&& g.wf()
                &&& g.workload() == spec
                &&& g.drawn() == 0
                &&& g.seed() is None
            },
    {
        Generator::make(spec, false, 0)
    }

    /// A generator that picks each operation's kind at random, weighted by
    /// the workload, from a sequence that `seed` fixes; or `InvalidSpec` for
    /// a malformed workload.
    pub fn build_seeded(spec: WorkloadSpec, seed: u64) -> (r: Result<Generator, BenchError>)
        ensures
            spec.fault() matches Some(f) ==> r == Err::<Generator, BenchError>(BenchError::InvalidSpec(f)),
            r is Ok <==> spec.valid(),
            r matches Ok(g) ==> {
                &&& g.wf()
                &&& g.workload() == spec
                &&& g.drawn() == 0
                &&& g.seed() == Some(seed)
            },
    {
        Generator::make(spec, true, seed)
    }

    fn make(spec: WorkloadSpec, seeded: bool, seed: u64) -> (r: Result<Generator, BenchError>)
        ensures
            spec.fault() matches Some(f) ==> r == Err::<Generator, BenchError>(BenchError::InvalidSpec(f)),
            r is Ok <==> spec.valid(),
            r matches Ok(g) ==> {
                &&& g.wf()
                &&& g.workload() == spec
                &&& g.drawn() == 0
                &&& g.seed() == (if seeded { Some(seed) } else { None::<u64> })
            },
    {
        match spec.validate() {
            Err(e) => Err(e),
            Ok(()) => {
                assert(0nat % spec.total_weight() == 0);
                Ok(Generator { spec, ticket: 0, drawn: Ghost(0), seeded, seed, rng: SimRng::new(seed) })
            },
        }
    }

    /// Goes back to the start of the sequence, which is then drawn again
    /// exactly as before.
    pub fn restart(&mut self)
        requires
            old(self).wf(),
        ensures
            final(self).wf(),
            final(self).workload() == old(self).workload(),
            final(self).seed() == old(self).seed(),
            final(self).drawn() == 0,
    {
        self.ticket = 0;
        self.drawn = Ghost(0);
        self.rng = SimRng::new(self.seed);
        assert(0nat % self.spec.total_weight() == 0);
    }

    /// The next operation of the sequence.
    pub fn next(&mut self) -> (r: Operation)
        requires
            old(self).wf(),
        ensures
            final(self).wf(),
            final(self).workload() == old(self).workload(),
            final(self).seed() == old(self).seed(),
            final(self).drawn() == old(self).drawn() + 1,
            r == (Operation {
                kind: old(self).next_kind(),
                owner: old(self).workload().owner,
                gas_id: old(self).workload().primary_gas_id,
            }),
    {
        let total: u64 = self.spec.shared_counter_weight as u64 + self.spec.transfer_object_weight as u64;
        let ticket: u64 = if self.seeded {
            let d = self.rng.next_u64();
            d % total
        } else {
            self.ticket
        };
        let kind = if ticket < self.spec.transfer_object_weight as u64 {
            OperationKind::Transfer
        } else {
            OperationKind::SharedCounter
        };
        let ghost n = self.drawn@;
        let ghost w = total as int;
        proof {
            lemma_fundamental_div_mod(n as int, w);
            let q = n as int / w;
            let rem = n as int % w;
            if rem + 1 < w {
                lemma_fundamental_div_mod_converse(n as int + 1, w, q, rem + 1);
            } else {
                assert((q + 1) * w == w * q + w) by (nonlinear_arith);
                lemma_fundamental_div_mod_converse(n as int + 1, w, q + 1, 0);
            }
        }
        self.ticket = if self.ticket + 1 == total { 0 } else { self.ticket + 1 };
        self.drawn = Ghost(self.drawn@ + 1);
        Operation { kind, owner: self.spec.owner, gas_id: self.spec.primary_gas_id }
    }
}

/// How many of the first `r` positions of a block fall on transfers.
pub open spec fn transfers_in_prefix(spec: WorkloadSpec, r: nat) -> nat {
    if r < spec.transfer_object_weight {
        r
    } else {
        spec.transfer_object_weight as nat
    }
}

/// The mix a cyclic generator draws, in closed form: of the first `n` draws, each
/// complete block of `total_weight` draws holds exactly `transfer_object_weight`
/// transfers and `shared_counter_weight` shared-counter increments, and the
/// incomplete block at the end begins with its transfers.
pub proof fn lemma_mix_counts(spec: WorkloadSpec, n: nat)
    requires
        spec.valid(),
    ensures
        count_kind(spec, OperationKind::Transfer, n) == (n / spec.total_weight())
            * spec.transfer_object_weight + transfers_in_prefix(spec, n % spec.total_weight()),
        count_kind(spec, OperationKind::Transfer, n) + count_kind(
            spec,
            OperationKind::SharedCounter,
            n,
        ) == n,
    decreases n,
{
    let w = spec.total_weight() as int;
    if n == 0 {
        assert(0nat / spec.total_weight() == 0);
        assert(0nat % spec.total_weight() == 0);
    } else {
        let m = (n - 1) as nat;
        lemma_mix_counts(spec, m);
        lemma_fundamental_div_mod(m as int, w);
        let q = m as int / w;
        let rem = m as int % w;
        if rem + 1 < w {
            lemma_fundamental_div_mod_converse(n as int, w, q, rem + 1);
        } else {
            assert((q + 1) * w == w * q + w) by (nonlinear_arith);
            lemma_fundamental_div_mod_converse(n as int, w, q + 1, 0);
            assert((q + 1) * spec.transfer_object_weight == q * spec.transfer_object_weight
                + spec.transfer_object_weight) by (nonlinear_arith);
        }
    }
}

/// Over any whole number `m` of blocks, each kind is drawn exactly its weight
/// times `m`: the fraction of each kind is its weight over the total weight.
pub proof fn lemma_mix_exact_per_block(spec: WorkloadSpec, m: nat)
    requires
        spec.valid(),
    ensures
        count_kind(spec, OperationKind::Transfer, m * spec.total_weight()) == m
            * spec.transfer_object_weight,
        count_kind(spec, OperationKind::SharedCounter, m * spec.total_weight()) == m
            * spec.shared_counter_weight,
{
    let w = spec.total_weight() as int;
    let n = m * spec.total_weight();
    lemma_mix_counts(spec, n);
    lemma_fundamental_div_mod_converse(n as int, w, m as int, 0);
    assert(m * w == m * spec.transfer_object_weight + m * spec.shared_counter_weight)
        by (nonlinear_arith)
        requires
            w == spec.transfer_object_weight + spec.shared_counter_weight,
    ;
}

/// After any number `n` of draws, each kind's count is within one block's
/// share of its exact proportion: `|count * total_weight - n * weight|` is
/// less than `total_weight * weight`, so the fraction converges to
/// `weight / total_weight`.
pub proof fn lemma_mix_converges(spec: WorkloadSpec, n: nat)
    requires
        spec.valid(),
    ensures
        ({
            let w = spec.total_weight() as int;
            let t = count_kind(spec, OperationKind::Transfer, n) as int;
            let s = count_kind(spec, OperationKind::SharedCounter, n) as int;
            &&& t * w <= n * spec.transfer_object_weight + w * spec.transfer_object_weight
            &&& n * spec.transfer_object_weight <= t * w + w * spec.transfer_object_weight
            &&& s * w <= n * spec.shared_counter_weight + w * spec.shared_counter_weight
            &&& n * spec.shared_counter_weight <= s * w + w * spec.shared_counter_weight
        }),
{
    let w = spec.total_weight() as int;
    let wt = spec.transfer_object_weight as int;
    let ws = spec.shared_counter_weight as int;
    lemma_mix_counts(spec, n);
    lemma_fundamental_div_mod(n as int, w);
    let q = n as int / w;
    let r = n as int % w;
    let p = transfers_in_prefix(spec, n % spec.total_weight()) as int;
    let t = count_kind(spec, OperationKind::Transfer, n) as int;
    let s = count_kind(spec, OperationKind::SharedCounter, n) as int;
    assert(t == q * wt + p);
    assert(0 <= p <= wt && p <= r && r - p <= ws && r < w);
    assert(t * w <= n * wt + w * wt && n * wt <= t * w + w * wt) by (nonlinear_arith)
        requires
            t == q * wt + p,
            n == w * q + r,
            0 <= p <= wt,
            p <= r,
            r < w,
            0 <= wt,
            w == wt + ws,
            0 <= ws,
            r - p <= ws,
    ;
    assert(s * w <= n * ws + w * ws && n * ws <= s * w + w * ws) by (nonlinear_arith)
        requires
            s == n - t,
            t == q * wt + p,
            n == w * q + r,
            0 <= p <= wt,
            p <= r,
            r < w,
            0 <= wt,
            w == wt + ws,
            0 <= ws,
            r - p <= ws,
    ;
}

} // verus!
