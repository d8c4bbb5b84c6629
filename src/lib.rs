//! Deterministic load generation and simulated network latency for
//! benchmarking a distributed ledger.

pub mod latency;
pub mod workload;
pub mod throttle;
pub mod driver;
