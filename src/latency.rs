//! Latency distributions for simulated network links, the presets built from
//! them, and a seeded model that samples delivery delays reproducibly.
//!
//! All durations are in nanoseconds.

use vstd::prelude::*;

verus! {

/// Nanoseconds in one millisecond.
pub const NANOS_PER_MILLI: u64 = 1_000_000;

/// Multiplier of the linear congruential generator that drives sampling.
pub const LCG_MUL: u64 = 6364136223846793005;

/// Increment of the linear congruential generator that drives sampling.
pub const LCG_INC: u64 = 1442695040888963407;

/// One step of the generator: `state * LCG_MUL + LCG_INC` modulo 2^64.
pub open spec fn lcg_next(state: u64) -> u64 {
    ((state as int * LCG_MUL as int + LCG_INC as int) % 0x1_0000_0000_0000_0000int) as u64
}

/// The generator's state after `n` steps from `seed`.
pub open spec fn lcg_iter(seed: u64, n: nat) -> u64
    decreases n,
{
    if n == 0 {
        seed
    } else {
        lcg_next(lcg_iter(seed, (n - 1) as nat))
    }
}

/// The value drawn from a state: the state with its upper half folded into
/// its lower half. This is one-to-one on `u64`, so every 64-bit value can be
/// drawn, while the weak low bits of the state are mixed with its strong
/// high bits.
pub open spec fn lcg_output(state: u64) -> u64 {
    state ^ (state >> 32u64)
}

/// A distribution of message-delivery delays.
#[derive(Clone, Copy, Debug, PartialEq, Eq, Structural)]
pub enum LatencyDistribution {
    /// Always the same delay.
    Fixed { nanos: u64 },
    /// Uniform over the half-open range `[lo_nanos, hi_nanos)`.
    Uniform { lo_nanos: u64, hi_nanos: u64 },
}

impl LatencyDistribution {
    /// A uniform range is well formed when it is not empty.
    pub open spec fn wf(&self) -> bool {
        match *self {
            LatencyDistribution::Fixed { .. } => true,
            LatencyDistribution::Uniform { lo_nanos, hi_nanos } => lo_nanos < hi_nanos,
        }
    }

    /// The delay chosen by the raw draw `draw`.
    pub open spec fn pick(&self, draw: u64) -> u64
        recommends
            self.wf(),
    {
        match *self {
            LatencyDistribution::Fixed { nanos } => nanos,
            LatencyDistribution::Uniform { lo_nanos, hi_nanos } => (lo_nanos + draw % (
            hi_nanos - lo_nanos) as u64) as u64,
        }
    }

    /// Whether `d` is a delay the distribution can give.
    pub open spec fn in_range(&self, d: u64) -> bool {
        match *self {
            LatencyDistribution::Fixed { nanos } => d == nanos,
            LatencyDistribution::Uniform { lo_nanos, hi_nanos } => lo_nanos <= d < hi_nanos,
        }
    }

    /// A fixed delay.
    pub fn fixed(nanos: u64) -> (r: LatencyDistribution)
        ensures
            r == (LatencyDistribution::Fixed { nanos }),
    {
        LatencyDistribution::Fixed { nanos }
    }

    /// A uniform distribution over `[lo_nanos, hi_nanos)`, or `None` when the
    /// range is empty.
    pub fn uniform(lo_nanos: u64, hi_nanos: u64) -> (r: Option<LatencyDistribution>)
        ensures
            r is Some <==> lo_nanos < hi_nanos,
            r is Some ==> r->0 == (LatencyDistribution::Uniform { lo_nanos, hi_nanos }),
    {
        if lo_nanos < hi_nanos {
            Some(LatencyDistribution::Uniform { lo_nanos, hi_nanos })
        } else {
            None
        }
    }

    /// The delay chosen by the raw draw `draw`; always within the range.
    pub fn pick_with(&self, draw: u64) -> (r: u64)
        requires
            self.wf(),
        ensures
            r == self.pick(draw),
            self.in_range(r),
    {
        match *self {
            LatencyDistribution::Fixed { nanos } => nanos,
            LatencyDistribution::Uniform { lo_nanos, hi_nanos } => {
                let span: u64 = hi_nanos - lo_nanos;
                lo_nanos + draw % span
            },
        }
    }
}

/// A latency override for the directed link from node `from` to node `to`.
#[derive(Clone, Copy, Debug, PartialEq, Eq, Structural)]
pub struct LinkLatency {
    pub from: u64,
    pub to: u64,
    pub latency: LatencyDistribution,
}

/// The distribution of the first override in `links` for `from -> to`, or
/// `default` when none matches.
pub open spec fn link_distribution(
    links: Seq<LinkLatency>,
    default: LatencyDistribution,
    from: u64,
    to: u64,
) -> LatencyDistribution
    decreases links.len(),
{
    if links.len() == 0 {
        default
    } else if links[0].from == from && links[0].to == to {
        links[0].latency
    } else {
        link_distribution(links.drop_first(), default, from, to)
    }
}

/// Latency settings of a simulated network: a default distribution and
/// per-link overrides.
pub struct LatencyConfig {
    pub default_latency: LatencyDistribution,
    pub link_latency: Vec<LinkLatency>,
}

impl LatencyConfig {
    /// Every distribution in the configuration is well formed.
    pub open spec fn wf(&self) -> bool {
        &&& self.default_latency.wf()
        &&& forall|i: int| 0 <= i < self.link_latency@.len() ==> #[trigger] self.link_latency@[i].latency.wf()
    }

    /// The distribution that governs messages from `from` to `to`.
    pub open spec fn spec_distribution_for(&self, from: u64, to: u64) -> LatencyDistribution {
        link_distribution(self.link_latency@, self.default_latency, from, to)
    }

    /// A configuration with the given default and no overrides.
    pub fn with_default(default_latency: LatencyDistribution) -> (r: LatencyConfig)
        ensures
            r.default_latency == default_latency,
            r.link_latency@ == Seq::<LinkLatency>::empty(),
    {
        LatencyConfig { default_latency, link_latency: Vec::new() }
    }

    /// Adds an override for the link `from -> to`; an earlier override of the
    /// same link keeps precedence.
    pub fn add_link(&mut self, from: u64, to: u64, latency: LatencyDistribution)
        ensures
            final(self).default_latency == old(self).default_latency,
            final(self).link_latency@ == old(self).link_latency@.push(
                LinkLatency { from, to, latency },
            ),
    {
        self.link_latency.push(LinkLatency { from, to, latency });
    }

    /// The distribution that governs messages from `from` to `to`: the first
    /// matching override, else the default.
    pub fn distribution_for(&self, from: u64, to: u64) -> (r: LatencyDistribution)
        ensures
            r == self.spec_distribution_for(from, to),
            self.wf() ==> r.wf(),
    {
        let mut i: usize = 0;
        assert(self.link_latency@.skip(0) =~= self.link_latency@);
        while i < self.link_latency.len()
            invariant
                0 <= i <= self.link_latency@.len(),
                link_distribution(self.link_latency@, self.default_latency, from, to)
                    == link_distribution(self.link_latency@.skip(i as int), self.default_latency, from, to),
                self.wf() ==> forall|j: int| i <= j < self.link_latency@.len() ==> #[trigger] self.link_latency@[j].latency.wf(),
            decreases self.link_latency@.len() - i,
        {
            let l = self.link_latency[i];
            let ghost rest = self.link_latency@.skip(i as int);
            assert(rest[0] == l);
            assert(rest.drop_first() =~= self.link_latency@.skip(i + 1));
            if l.from == from && l.to == to {
                return l.latency;
            }
            i = i + 1;
        }
        assert(self.link_latency@.skip(i as int).len() == 0);
        self.default_latency
    }
}

/// Network settings of a simulation session.
pub struct NetworkConfig {
    pub latency: LatencyConfig,
}

/// Settings of one simulation session.
pub struct SimConfig {
    pub net: NetworkConfig,
}

/// The wide-area preset: every link delays messages uniformly between 40 ms
/// (inclusive) and 60 ms (exclusive).
pub fn wan_latency_50ms() -> (r: SimConfig)
    ensures
        r.net.latency.default_latency == (LatencyDistribution::Uniform {
            lo_nanos: 40_000_000,
            hi_nanos: 60_000_000,
        }),
        r.net.latency.link_latency@.len() == 0,
        r.net.latency.wf(),
{
    let default_latency = LatencyDistribution::Uniform {
        lo_nanos: 40 * NANOS_PER_MILLI,
        hi_nanos: 60 * NANOS_PER_MILLI,
    };
    SimConfig { net: NetworkConfig { latency: LatencyConfig::with_default(default_latency) } }
}

/// The `n`-th raw draw (counting from zero) of a generator seeded with `seed`.
pub open spec fn nth_draw(seed: u64, n: nat) -> u64 {
    lcg_output(lcg_iter(seed, n + 1))
}

/// A seeded pseudo-random generator: the same seed gives the same draws.
pub struct SimRng {
    state: u64,
    seed: Ghost<u64>,
    steps: Ghost<nat>,
}

impl SimRng {
    /// The seed the generator was made with.
    pub closed spec fn seed(&self) -> u64 {
        self.seed@
    }

    /// How many draws were taken so far.
    pub closed spec fn steps(&self) -> nat {
        self.steps@
    }

    /// The state is the seed advanced once per draw.
    pub closed spec fn wf(&self) -> bool {
        self.state == lcg_iter(self.seed@, self.steps@)
    }

    /// A generator that has drawn nothing yet.
    pub fn new(seed: u64) -> (r: SimRng)
        ensures
            r.wf(),
            r.seed() == seed,
            r.steps() == 0,
    {
        SimRng { state: seed, seed: Ghost(seed), steps: Ghost(0) }
    }

    /// The next raw draw.
    pub fn next_u64(&mut self) -> (r: u64)
        requires
            old(self).wf(),
        ensures
            final(self).wf(),
            final(self).seed() == old(self).seed(),
            final(self).steps() == old(self).steps() + 1,
            r == nth_draw(old(self).seed(), old(self).steps()),
    {
        let prod: u128 = (self.state as u128) * (LCG_MUL as u128);
        assert(prod <= 0xffff_ffff_ffff_ffff * 0xffff_ffff_ffff_ffff) by (nonlinear_arith)
            requires
                prod == self.state as int * LCG_MUL as int,
                self.state <= 0xffff_ffff_ffff_ffff,
        ;
        let next: u128 = (prod + LCG_INC as u128) % 0x1_0000_0000_0000_0000u128;
        self.state = next as u64;
        self.steps = Ghost(self.steps@ + 1);
        assert(self.state == lcg_next(lcg_iter(self.seed@, (self.steps@ - 1) as nat)));
        self.state ^ (self.state >> 32u64)
    }
}

/// The `n`-th delay (counting from zero) that `dist` gives under `seed`.
pub open spec fn nth_sample(dist: LatencyDistribution, seed: u64, n: nat) -> u64 {
    dist.pick(nth_draw(seed, n))
}

/// Samples delivery delays for a simulation session from its latency
/// configuration and one seeded generator.
pub struct LatencyModel {
    pub config: LatencyConfig,
    pub rng: SimRng,
}

impl LatencyModel {
    /// The configuration is well formed and the generator consistent.
    pub open spec fn wf(&self) -> bool {
        self.config.wf() && self.rng.wf()
    }

    /// The session seed.
    pub open spec fn seed(&self) -> u64 {
        self.rng.seed()
    }

    /// How many delays were sampled so far.
    pub open spec fn samples_taken(&self) -> nat {
        self.rng.steps()
    }

    /// A model bound to `seed` that has sampled nothing yet.
    pub fn new(config: LatencyConfig, seed: u64) -> (r: LatencyModel)
        requires
            config.wf(),
        ensures
            r.wf(),
            r.config == config,
            r.seed() == seed,
            r.samples_taken() == 0,
    {
        LatencyModel { config, rng: SimRng::new(seed) }
    }

    /// The delay of the next message on the link `from -> to`.
    pub fn sample_link(&mut self, from: u64, to: u64) -> (r: u64)
        requires
            old(self).wf(),
        ensures
            final(self).wf(),
            final(self).config == old(self).config,
            final(self).seed() == old(self).seed(),
            final(self).samples_taken() == old(self).samples_taken() + 1,
            r == nth_sample(
                old(self).config.spec_distribution_for(from, to),
                old(self).seed(),
                old(self).samples_taken(),
            ),
            old(self).config.spec_distribution_for(from, to).in_range(r),
    {
        let dist = self.config.distribution_for(from, to);
        let draw = self.rng.next_u64();
        dist.pick_with(draw)
    }

    /// The delay of the next message on a link without an override.
    pub fn sample(&mut self) -> (r: u64)
        requires
            old(self).wf(),
        ensures
            final(self).wf(),
            final(self).config == old(self).config,
            final(self).seed() == old(self).seed(),
            final(self).samples_taken() == old(self).samples_taken() + 1,
            r == nth_sample(old(self).config.default_latency, old(self).seed(), old(self).samples_taken()),
            old(self).config.default_latency.in_range(r),
    {
        let draw = self.rng.next_u64();
        self.config.default_latency.pick_with(draw)
    }

    /// The next `n` delays on links without an override.
    pub fn sample_many(&mut self, n: usize) -> (r: Vec<u64>)
        requires
            old(self).wf(),
        ensures
            final(self).wf(),
            final(self).config == old(self).config,
            final(self).seed() == old(self).seed(),
            final(self).samples_taken() == old(self).samples_taken() + n,
            r@.len() == n,
            forall|i: int|
                0 <= i < n ==> #[trigger] r@[i] == nth_sample(
                    old(self).config.default_latency,
                    old(self).seed(),
                    (old(self).samples_taken() + i) as nat,
                ),
    {
        let mut out: Vec<u64> = Vec::new();
        let mut k: usize = 0;
        while k < n
            invariant
                k <= n,
                self.wf(),
                self.config == old(self).config,
                self.seed() == old(self).seed(),
                self.samples_taken() == old(self).samples_taken() + k,
                out@.len() == k,
                forall|i: int|
                    0 <= i < k ==> #[trigger] out@[i] == nth_sample(
                        old(self).config.default_latency,
                        old(self).seed(),
                        (old(self).samples_taken() + i) as nat,
                    ),
            decreases n - k,
        {
            let d = self.sample();
            out.push(d);
            k = k + 1;
        }
        out
    }
}

/// Sampling is reproducible: two models with the same configuration and seed
/// that have taken the same number of samples give the same next delay on
/// every link.
pub proof fn lemma_sampling_deterministic(a: LatencyModel, b: LatencyModel, from: u64, to: u64)
    requires
        a.wf(),
        b.wf(),
        a.config == b.config,
        a.seed() == b.seed(),
        a.samples_taken() == b.samples_taken(),
    ensures
        nth_sample(a.config.spec_distribution_for(from, to), a.seed(), a.samples_taken())
            == nth_sample(b.config.spec_distribution_for(from, to), b.seed(), b.samples_taken()),
{
}

/// Every delay a well-formed distribution gives, under any seed and at any
/// position of the sequence, lies in its range; for a uniform distribution
/// that is `[lo_nanos, hi_nanos)`.
pub proof fn lemma_samples_in_range(dist: LatencyDistribution, seed: u64, n: nat)
    requires
        dist.wf(),
    ensures
        dist.in_range(nth_sample(dist, seed, n)),
{
    let d = nth_draw(seed, n);
    match dist {
        LatencyDistribution::Fixed { .. } => {},
        LatencyDistribution::Uniform { lo_nanos, hi_nanos } => {
            assert(d % ((hi_nanos - lo_nanos) as u64) < hi_nanos - lo_nanos);
        },
    }
}

} // verus!
