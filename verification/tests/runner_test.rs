//! Counting request outcomes and stepping the benchmark phases.

use rproxy::bench::config::{BurstConfig, LoadConfig, ProxyConfig, ScenarioConfig, StressConfig};
use rproxy::bench::runner::{
    base_url, benchmark_targets, error_rate_exceeds, main_phase, pause_after, requests_per_worker,
    result_file_name, run_id, stress_after_step, stress_start, warmup_phase, ErrorMetrics, LoadPhase,
    MainPhase, RequestOutcome, ScenarioSummary, StressStep, Tally,
};

#[test]
fn load_outcomes_are_counted_by_cause() {
    let mut t = Tally::new();
    t.record_load(RequestOutcome::Status(200));
    t.record_load(RequestOutcome::Status(204));
    t.record_load(RequestOutcome::Status(404));
    t.record_load(RequestOutcome::Status(503));
    t.record_load(RequestOutcome::Status(301));
    t.record_load(RequestOutcome::Timeout);
    t.record_load(RequestOutcome::ConnectFailed);
    t.record_load(RequestOutcome::OtherError);
    assert_eq!(t.successful, 2);
    assert_eq!(t.failed, 5);
    assert_eq!(
        t.errors,
        ErrorMetrics { timeout: 1, connection_refused: 1, status_4xx: 1, status_5xx: 1, other: 1 }
    );
    assert_eq!(t.total(), 7);
}

#[test]
fn burst_outcomes_count_every_request() {
    let mut t = Tally::new();
    t.record_burst(RequestOutcome::Status(200));
    t.record_burst(RequestOutcome::Status(301));
    t.record_burst(RequestOutcome::Status(500));
    t.record_burst(RequestOutcome::Timeout);
    assert_eq!((t.successful, t.failed), (1, 3));
    assert_eq!(t.errors, ErrorMetrics::new());
}

#[test]
fn counters_wrap_around() {
    let mut t = Tally::new();
    t.successful = u64::MAX;
    t.record_burst(RequestOutcome::Status(200));
    assert_eq!(t.successful, 0);
}

#[test]
fn error_rates_in_thousandths_of_a_percent() {
    assert!(!error_rate_exceeds(0, 0, 0));
    assert!(error_rate_exceeds(1, 0, 0));
    assert!(!error_rate_exceeds(5, 95, 5000));
    assert!(error_rate_exceeds(6, 94, 5000));
    assert!(!error_rate_exceeds(10, 0, 100000));
    assert!(error_rate_exceeds(u64::MAX, u64::MAX, 49999));
}

#[test]
fn stress_ramp() {
    let stress = StressConfig { start_rps: 100, max_rps: 1000, step: 400, step_duration_secs: 1, error_threshold_milli: 5000 };
    assert_eq!(stress_start(&stress), Some(100));
    assert_eq!(stress_after_step(&stress, 100, 0, 1000), StressStep::Next(500));
    assert_eq!(stress_after_step(&stress, 500, 0, 1000), StressStep::Next(900));
    assert_eq!(stress_after_step(&stress, 900, 0, 1000), StressStep::Finished);
    assert_eq!(stress_after_step(&stress, 500, 100, 900), StressStep::BreakingPoint);
    let inverted = StressConfig { start_rps: 10, max_rps: 5, ..stress };
    assert_eq!(stress_start(&inverted), None);
}

#[test]
fn bursts() {
    let burst = BurstConfig { burst_size: 10000, burst_count: 5, pause_secs: 10, concurrency: 100 };
    assert_eq!(requests_per_worker(&burst), 100);
    let uneven = BurstConfig { burst_size: 1001, concurrency: 100, ..burst };
    assert_eq!(requests_per_worker(&uneven), 10);
    assert!(pause_after(&burst, 0));
    assert!(pause_after(&burst, 3));
    assert!(!pause_after(&burst, 4));
}

#[test]
fn phases() {
    let load = LoadConfig { target_rps: 1001, concurrency: 11, duration_secs: 60, warmup_secs: 5, timeout_ms: 1 };
    assert_eq!(warmup_phase(&load, true), Some(LoadPhase { target_rps: 500, concurrency: 5, duration_secs: 5 }));
    assert_eq!(warmup_phase(&load, false), None);
    let no_warmup = LoadConfig { warmup_secs: 0, ..load };
    assert_eq!(warmup_phase(&no_warmup, true), None);

    let stress = ScenarioConfig::preset("stress").unwrap();
    assert_eq!(main_phase(&stress), MainPhase::Stress(stress.stress.unwrap()));
    let burst = ScenarioConfig::preset("burst").unwrap();
    assert_eq!(main_phase(&burst), MainPhase::Burst(burst.burst.unwrap()));
    let baseline = ScenarioConfig::preset("baseline").unwrap();
    assert_eq!(main_phase(&baseline), MainPhase::Load(LoadPhase { target_rps: 1, concurrency: 1, duration_secs: 60 }));

    let summary = ScenarioSummary::from_load(&load);
    assert_eq!((summary.duration_secs, summary.target_rps, summary.concurrency, summary.warmup_secs), (60, 1001, 11, 5));
}

#[test]
fn names_and_targets() {
    assert_eq!(run_id("20240101-120000", "baseline", "nginx"), "20240101-120000-baseline-nginx");
    assert_eq!(result_file_name("20240101-120000", "burst", "caddy"), "20240101-120000-burst-caddy.json");
    assert_eq!(benchmark_targets("all"), vec!["rproxy", "nginx", "traefik", "caddy", "envoy"]);
    assert_eq!(benchmark_targets("nginx"), vec!["nginx"]);
    let proxy = ProxyConfig::for_proxy("envoy");
    assert_eq!(base_url(&proxy, None), "http://localhost:8084");
    assert_eq!(base_url(&proxy, Some("http://127.0.0.1:9000")), "http://127.0.0.1:9000");
}

#[test]
fn error_counters_with_room() {
    let mut e = ErrorMetrics::new();
    assert!(e.can_count(RequestOutcome::Timeout));
    e.timeout = u64::MAX;
    assert!(!e.can_count(RequestOutcome::Timeout));
    assert!(e.can_count(RequestOutcome::Status(200)));
    e.status_4xx = u64::MAX;
    assert!(!e.can_count(RequestOutcome::Status(404)));
    assert!(e.can_count(RequestOutcome::Status(503)));
}
