//! The benchmark suite's planning logic: scenarios, request workloads and
//! result tallies.

pub mod config;
pub mod metrics;
pub mod report;
pub mod runner;
pub mod workload;
