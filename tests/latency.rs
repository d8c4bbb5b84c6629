use sui_simulator::latency::{
    wan_latency_50ms, LatencyConfig, LatencyDistribution, LatencyModel, SimRng, NANOS_PER_MILLI,
};

fn wan_model(seed: u64) -> LatencyModel {
    let config = wan_latency_50ms();
    LatencyModel::new(config.net.latency, seed)
}

#[test]
fn wan_preset_is_uniform_forty_to_sixty_millis() {
    let config = wan_latency_50ms();
    assert_eq!(
        config.net.latency.default_latency,
        LatencyDistribution::Uniform { lo_nanos: 40 * NANOS_PER_MILLI, hi_nanos: 60 * NANOS_PER_MILLI }
    );
    assert!(config.net.latency.link_latency.is_empty());
}

#[test]
fn same_seed_gives_same_samples() {
    let mut a = wan_model(7);
    let mut b = wan_model(7);
    let xs = a.sample_many(500);
    let ys = b.sample_many(500);
    assert_eq!(xs, ys);
    assert_eq!(a.sample_link(1, 2), b.sample_link(1, 2));
}

#[test]
fn same_call_sequence_mixing_links_is_reproducible() {
    let mut runs = Vec::new();
    for _ in 0..2 {
        let mut m = wan_model(99);
        let mut seq = Vec::new();
        for i in 0..50u64 {
            seq.push(m.sample_link(i % 3, i % 5));
            seq.push(m.sample());
        }
        runs.push(seq);
    }
    assert_eq!(runs[0], runs[1]);
}

#[test]
fn uniform_samples_stay_in_range() {
    for seed in [0u64, 1, 42, u64::MAX] {
        let mut m = wan_model(seed);
        for d in m.sample_many(2000) {
            assert!(d >= 40 * NANOS_PER_MILLI && d < 60 * NANOS_PER_MILLI);
        }
    }
}

#[test]
fn sample_values_follow_the_generator() {
    let mut m = wan_model(0);
    assert_eq!(m.sample_many(3), vec![53_122_353, 44_165_411, 44_558_139]);
    let mut m = wan_model(42);
    assert_eq!(m.sample(), 59_181_148);
}

#[test]
fn raw_draws_fold_the_state() {
    let mut r = SimRng::new(0);
    assert_eq!(r.next_u64(), 1_442_695_040_553_122_353);
    assert_eq!(r.next_u64(), 1_876_011_004_244_165_411);
}

#[test]
fn empty_uniform_range_is_refused() {
    assert_eq!(LatencyDistribution::uniform(5, 5), None);
    assert_eq!(LatencyDistribution::uniform(6, 5), None);
    assert_eq!(
        LatencyDistribution::uniform(5, 6),
        Some(LatencyDistribution::Uniform { lo_nanos: 5, hi_nanos: 6 })
    );
}

#[test]
fn fixed_distribution_always_gives_its_delay() {
    let mut m = LatencyModel::new(LatencyConfig::with_default(LatencyDistribution::fixed(123)), 5);
    for d in m.sample_many(20) {
        assert_eq!(d, 123);
    }
}

#[test]
fn link_override_takes_precedence() {
    let mut config = LatencyConfig::with_default(LatencyDistribution::fixed(1));
    config.add_link(1, 2, LatencyDistribution::fixed(10));
    config.add_link(1, 2, LatencyDistribution::fixed(20));
    config.add_link(2, 1, LatencyDistribution::fixed(30));
    assert_eq!(config.distribution_for(1, 2), LatencyDistribution::fixed(10));
    assert_eq!(config.distribution_for(2, 1), LatencyDistribution::fixed(30));
    assert_eq!(config.distribution_for(3, 1), LatencyDistribution::fixed(1));
    let mut m = LatencyModel::new(config, 3);
    assert_eq!(m.sample_link(1, 2), 10);
    assert_eq!(m.sample_link(2, 1), 30);
    assert_eq!(m.sample_link(2, 2), 1);
    assert_eq!(m.sample(), 1);
}

#[test]
fn pick_with_wraps_draw_into_range() {
    let d = LatencyDistribution::Uniform { lo_nanos: 100, hi_nanos: 110 };
    assert_eq!(d.pick_with(0), 100);
    assert_eq!(d.pick_with(9), 109);
    assert_eq!(d.pick_with(10), 100);
    assert_eq!(d.pick_with(u64::MAX), 105);
}

#[test]
fn wide_uniform_range_reaches_beyond_32_bits() {
    let wide = LatencyDistribution::uniform(0, 1 << 40).unwrap();
    let mut m = LatencyModel::new(LatencyConfig::with_default(wide), 11);
    let xs = m.sample_many(100);
    assert!(xs.iter().all(|&d| d < 1 << 40));
    assert!(xs.iter().any(|&d| d >= 1 << 32));
}
