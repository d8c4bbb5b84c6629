use sui_simulator::throttle::{InFlightLimiter, RateController};
use sui_simulator::workload::make_combination_workload;

#[test]
fn throttle_waits_until_due() {
    let r = RateController::new(10, 0);
    assert_eq!(r.throttle(0, 0), 100_000_000);
    assert_eq!(r.throttle(0, 100_000_000), 0);
    assert_eq!(r.throttle(5, 0), 600_000_000);
    assert_eq!(r.throttle(5, 200_000_000), 400_000_000);
    assert_eq!(r.throttle(5, 600_000_000), 0);
}

#[test]
fn throttle_allows_a_burst() {
    let r = RateController::new(10, 2);
    assert_eq!(r.throttle(0, 0), 0);
    assert_eq!(r.throttle(1, 0), 0);
    assert_eq!(r.throttle(2, 0), 100_000_000);
    assert_eq!(r.throttle(3, 0), 200_000_000);
}

#[test]
fn exactly_burst_operations_at_time_zero() {
    for burst in [0u64, 1, 2, 10] {
        let r = RateController::new(10, burst);
        let mut n: u64 = 0;
        while r.throttle(n, 0) == 0 {
            n += 1;
        }
        assert_eq!(n, burst);
    }
}

#[test]
fn throttle_rounds_up_the_due_time() {
    let r = RateController::new(3, 0);
    assert_eq!(r.throttle(0, 0), 333_333_334);
    assert_eq!(r.throttle(2, 0), 1_000_000_000);
}

#[test]
fn throttle_caps_far_future_waits() {
    let r = RateController::new(1, 0);
    assert_eq!(r.throttle(u64::MAX, 0), u64::MAX);
}

#[test]
fn issuing_when_due_converges_to_target_rate() {
    let qps: u64 = 100;
    let burst: u64 = 5;
    let r = RateController::new(qps, burst);
    let mut now: u64 = 0;
    let mut n: u64 = 0;
    while n < 10_005 {
        now += r.throttle(n, now);
        // Issued so far never exceed the burst plus the target rate's share.
        assert!((n + 1) as u128 * 1_000_000_000 <= burst as u128 * 1_000_000_000 + now as u128 * qps as u128);
        n += 1;
    }
    // 10_000 operations after the burst at 100 per second take 100 s.
    assert_eq!(now, 100_000_000_000);
    assert_eq!((n - burst) * 1_000_000_000 / now, qps);
}

#[test]
fn limiter_caps_outstanding_tokens() {
    let mut l = InFlightLimiter::new(2);
    let a = l.try_acquire().unwrap();
    let b = l.try_acquire().unwrap();
    assert_ne!(a, b);
    assert!(l.try_acquire().is_none());
    assert_eq!(l.in_flight(), 2);
    assert!(l.release(a));
    assert_eq!(l.in_flight(), 1);
    let c = l.try_acquire().unwrap();
    assert_ne!(c, a);
    assert_ne!(c, b);
    assert!(l.try_acquire().is_none());
}

#[test]
fn release_is_idempotent_per_token() {
    let mut l = InFlightLimiter::new(3);
    let a = l.try_acquire().unwrap();
    let b = l.try_acquire().unwrap();
    assert!(l.release(a));
    assert!(!l.release(a));
    assert_eq!(l.in_flight(), 1);
    assert!(l.release(b));
    assert_eq!(l.in_flight(), 0);
}

#[test]
fn zero_capacity_admits_nothing() {
    let mut l = InFlightLimiter::new(0);
    assert!(l.try_acquire().is_none());
}

#[test]
fn limiter_bound_holds_under_random_acquire_release() {
    let spec = make_combination_workload(3, 4, 2, 0, 0, 0, 1, 1, 1).unwrap();
    let mut l = InFlightLimiter::for_workload(&spec);
    assert_eq!(l.capacity_value(), 6);
    let mut held = Vec::new();
    let mut x: u64 = 12345;
    for _ in 0..5000 {
        x = x.wrapping_mul(6364136223846793005).wrapping_add(1);
        if (x >> 40) % 3 != 0 {
            if let Some(t) = l.try_acquire() {
                held.push(t);
            }
        } else if !held.is_empty() {
            let i = ((x >> 20) as usize) % held.len();
            let t = held.swap_remove(i);
            assert!(l.release(t));
        }
        assert!(l.in_flight() <= 6);
        assert_eq!(l.in_flight() as usize, held.len());
    }
}
