use sui_simulator::workload::{
    make_combination_workload, BenchError, Generator, OperationKind, SpecFault, WorkloadSpec,
};

fn spec(shared: u32, transfer: u32) -> WorkloadSpec {
    make_combination_workload(10, 10, 5, 77, 88, 99, 1, shared, transfer).unwrap()
}

fn counts(g: &mut Generator, n: usize) -> (usize, usize) {
    let mut t = 0;
    let mut s = 0;
    for _ in 0..n {
        match g.next().kind {
            OperationKind::Transfer => t += 1,
            OperationKind::SharedCounter => s += 1,
        }
    }
    (t, s)
}

#[test]
fn all_weights_zero_is_invalid_spec() {
    let r = make_combination_workload(10, 10, 5, 1, 2, 3, 1, 0, 0);
    assert_eq!(r, Err(BenchError::InvalidSpec(SpecFault::ZeroTotalWeight)));
}

#[test]
fn non_positive_rate_or_workers_is_invalid_spec() {
    assert_eq!(
        make_combination_workload(0, 10, 5, 1, 2, 3, 1, 1, 1),
        Err(BenchError::InvalidSpec(SpecFault::ZeroTargetQps))
    );
    assert_eq!(
        make_combination_workload(10, 0, 5, 1, 2, 3, 1, 1, 1),
        Err(BenchError::InvalidSpec(SpecFault::ZeroWorkers))
    );
    assert_eq!(
        make_combination_workload(10, 10, 0, 1, 2, 3, 1, 1, 1),
        Err(BenchError::InvalidSpec(SpecFault::ZeroInFlightRatio))
    );
}

#[test]
fn transfers_without_accounts_is_invalid_spec() {
    assert_eq!(
        make_combination_workload(10, 10, 5, 1, 2, 3, 0, 1, 1),
        Err(BenchError::InvalidSpec(SpecFault::NoTransferAccounts))
    );
    assert!(make_combination_workload(10, 10, 5, 1, 2, 3, 0, 1, 0).is_ok());
}

#[test]
fn valid_spec_keeps_its_parameters() {
    let s = make_combination_workload(10, 10, 5, 11, 12, 13, 1, 1, 1).unwrap();
    assert_eq!(
        s,
        WorkloadSpec {
            target_qps: 10,
            num_workers: 10,
            in_flight_ratio: 5,
            primary_gas_id: 11,
            owner: 12,
            keypair: 13,
            num_transfer_accounts: 1,
            shared_counter_weight: 1,
            transfer_object_weight: 1,
        }
    );
    assert_eq!(s.max_in_flight(), 50);
}

#[test]
fn in_flight_limit_saturates() {
    let s = make_combination_workload(u64::MAX, 1, 2, 0, 0, 0, 1, 1, 0).unwrap();
    assert_eq!(s.max_in_flight(), u64::MAX);
}

#[test]
fn equal_weights_alternate() {
    let mut g = Generator::build(spec(1, 1)).unwrap();
    let first = g.next();
    assert_eq!(first.kind, OperationKind::Transfer);
    assert_eq!(first.owner, 88);
    assert_eq!(first.gas_id, 77);
    assert_eq!(g.next().kind, OperationKind::SharedCounter);
    assert_eq!(g.next().kind, OperationKind::Transfer);
}

#[test]
fn long_run_mix_matches_weights() {
    let mut g = Generator::build(spec(1, 3)).unwrap();
    assert_eq!(counts(&mut g, 4000), (3000, 1000));
    let mut g = Generator::build(spec(7, 2)).unwrap();
    let (t, s) = counts(&mut g, 10_000);
    assert_eq!(t + s, 10_000);
    assert!((t as i64 * 9 - 10_000 * 2).abs() <= 9 * 2);
    assert!((s as i64 * 9 - 10_000 * 7).abs() <= 9 * 7);
}

#[test]
fn zero_weight_kind_is_never_drawn() {
    let mut g = Generator::build(spec(0, 4)).unwrap();
    assert_eq!(counts(&mut g, 100), (100, 0));
    let mut g = Generator::build(make_combination_workload(1, 1, 1, 0, 0, 0, 0, 2, 0).unwrap()).unwrap();
    assert_eq!(counts(&mut g, 100), (0, 100));
}

#[test]
fn restart_replays_the_sequence() {
    let mut g = Generator::build(spec(2, 3)).unwrap();
    let a: Vec<OperationKind> = (0..13).map(|_| g.next().kind).collect();
    g.restart();
    let b: Vec<OperationKind> = (0..13).map(|_| g.next().kind).collect();
    assert_eq!(a, b);
}

#[test]
fn seeded_draws_follow_the_seed() {
    // Tickets are the generator's draws modulo 4; tickets 0 to 2 are transfers.
    let mut g = Generator::build_seeded(spec(1, 3), 0).unwrap();
    let kinds: Vec<OperationKind> = (0..6).map(|_| g.next().kind).collect();
    let t = OperationKind::Transfer;
    let s = OperationKind::SharedCounter;
    assert_eq!(kinds, vec![t, s, s, t, t, t]);
}

#[test]
fn seeded_generator_is_reproducible_and_restartable() {
    let mut a = Generator::build_seeded(spec(2, 5), 31).unwrap();
    let mut b = Generator::build_seeded(spec(2, 5), 31).unwrap();
    let xs: Vec<OperationKind> = (0..200).map(|_| a.next().kind).collect();
    let ys: Vec<OperationKind> = (0..200).map(|_| b.next().kind).collect();
    assert_eq!(xs, ys);
    a.restart();
    let zs: Vec<OperationKind> = (0..200).map(|_| a.next().kind).collect();
    assert_eq!(xs, zs);
}

#[test]
fn seeded_long_run_fraction_near_weights() {
    let mut g = Generator::build_seeded(spec(1, 3), 2024).unwrap();
    let (t, s) = counts(&mut g, 100_000);
    assert_eq!(t + s, 100_000);
    // Expected 75_000 transfers; allow 1% of the draws either way.
    assert!((t as i64 - 75_000).abs() <= 1_000);
}

#[test]
fn seeded_zero_weight_kind_is_never_drawn() {
    let mut g = Generator::build_seeded(spec(0, 4), 5).unwrap();
    assert_eq!(counts(&mut g, 1000), (1000, 0));
}

#[test]
fn seeded_build_refuses_invalid_spec() {
    let mut s = spec(1, 1);
    s.transfer_object_weight = 0;
    s.shared_counter_weight = 0;
    assert!(matches!(
        Generator::build_seeded(s, 1),
        Err(BenchError::InvalidSpec(SpecFault::ZeroTotalWeight))
    ));
}
