//! Benchmark scenarios and proxies.

use rproxy::bench::report::{report_format, ReportFormat};
use rproxy::bench::config::{
    default_20, default_5, default_70, default_burst_concurrency, default_burst_count, default_burst_size,
    default_concurrency, default_cpu, default_duration, default_error_threshold, default_max_rps,
    default_memory, default_method, default_network, default_path, default_pause, default_rps,
    default_start_rps, default_step, default_step_duration, default_timeout, default_true,
    default_warmup, DockerConfig, LoadConfig, ProxyConfig, RequestConfig, ScenarioConfig,
};

#[test]
fn default_values() {
    assert_eq!(default_rps(), 100);
    assert_eq!(default_concurrency(), 10);
    assert_eq!(default_duration(), 60);
    assert_eq!(default_warmup(), 5);
    assert_eq!(default_timeout(), 30000);
    assert_eq!(default_method(), "GET");
    assert_eq!(default_path(), "/");
    assert!(default_true());
    assert_eq!(default_cpu(), 1000);
    assert_eq!(default_memory(), 256);
    assert_eq!(default_network(), "bench-network");
    assert_eq!(default_start_rps(), 100);
    assert_eq!(default_max_rps(), 10000);
    assert_eq!(default_step(), 100);
    assert_eq!(default_step_duration(), 30);
    assert_eq!(default_error_threshold(), 5000);
    assert_eq!(default_burst_size(), 10000);
    assert_eq!(default_burst_count(), 5);
    assert_eq!(default_pause(), 10);
    assert_eq!(default_burst_concurrency(), 100);
    assert_eq!((default_70(), default_20(), default_5()), (70, 20, 5));
}

#[test]
fn default_sections() {
    let load = LoadConfig::default();
    assert_eq!((load.target_rps, load.concurrency, load.duration_secs, load.warmup_secs, load.timeout_ms), (100, 10, 60, 5, 30000));
    let request = RequestConfig::default();
    assert_eq!(request.method, "GET");
    assert_eq!(request.path, "/");
    assert!(request.keep_alive && !request.compression && request.mix.is_none());
    let docker = DockerConfig::default();
    assert_eq!((docker.cpu_limit_milli, docker.memory_mb, docker.network.as_str()), (1000, 256, "bench-network"));
}

#[test]
fn presets() {
    let baseline = ScenarioConfig::preset("baseline").unwrap();
    assert_eq!(baseline.name, "baseline");
    assert_eq!((baseline.load.target_rps, baseline.load.concurrency), (1, 1));
    assert!(baseline.stress.is_none() && baseline.burst.is_none());

    let sustained = ScenarioConfig::preset("sustained").unwrap();
    assert_eq!((sustained.load.target_rps, sustained.load.duration_secs), (1000, 300));

    let burst = ScenarioConfig::preset("burst").unwrap();
    let b = burst.burst.unwrap();
    assert_eq!((b.burst_size, b.burst_count, b.pause_secs, b.concurrency), (10000, 5, 10, 100));

    let stress = ScenarioConfig::preset("stress").unwrap();
    let s = stress.stress.unwrap();
    assert_eq!((s.start_rps, s.max_rps, s.step, s.step_duration_secs, s.error_threshold_milli), (100, 50000, 500, 30, 5000));
    assert_eq!(stress.load.timeout_ms, 10000);

    let memory = ScenarioConfig::preset("memory").unwrap();
    assert_eq!(memory.load.duration_secs, 1800);

    let concurrent = ScenarioConfig::preset("concurrent").unwrap();
    assert_eq!(concurrent.load.concurrency, 1000);
    assert_eq!(concurrent.description, "High concurrency (1k connections) - connection handling");
}

#[test]
fn unknown_preset() {
    let e = ScenarioConfig::preset("nope").unwrap_err();
    assert_eq!(e, "Unknown scenario: nope. Use 'list' to see available scenarios.");
    assert!(ScenarioConfig::preset("Baseline").is_err());
}

#[test]
fn api_workload_preset() {
    let c = ScenarioConfig::preset("api-workload").unwrap();
    assert_eq!(c.name, "api-workload");
    assert_eq!(c.load.duration_secs, 180);
    assert_eq!(c.load.target_rps, 1000);
    let mix = c.request.mix.unwrap();
    assert_eq!((mix.get_percent, mix.post_percent, mix.put_percent, mix.delete_percent), (60, 25, 10, 5));
    assert_eq!(c.request.path, "/api/data");
    assert!(c.stress.is_none() && c.burst.is_none());
}

#[test]
fn proxies() {
    let p = ProxyConfig::for_proxy("rproxy");
    assert_eq!((p.name.as_str(), p.container_name.as_str(), p.port, p.url.as_str()), ("rproxy", "bench-rproxy", 8080, "http://localhost:8080"));
    let n = ProxyConfig::for_proxy("nginx");
    assert_eq!((n.port, n.url.as_str()), (8081, "http://localhost:8081"));
    let t = ProxyConfig::for_proxy("traefik");
    assert_eq!(t.port, 8082);
    let c = ProxyConfig::for_proxy("caddy");
    assert_eq!(c.container_name, "bench-caddy");
    let e = ProxyConfig::for_proxy("envoy");
    assert_eq!((e.port, e.url.as_str()), (8084, "http://localhost:8084"));
}

#[test]
fn known_proxies() {
    for name in ["rproxy", "nginx", "traefik", "caddy", "envoy"] {
        assert!(rproxy::bench::config::is_known_proxy(name));
    }
    assert!(!rproxy::bench::config::is_known_proxy("haproxy"));
    assert!(!rproxy::bench::config::is_known_proxy("all"));
}

#[test]
fn report_formats() {
    assert_eq!(report_format("markdown"), Ok(ReportFormat::Markdown));
    assert_eq!(report_format("md"), Ok(ReportFormat::Markdown));
    assert_eq!(report_format("html"), Ok(ReportFormat::Html));
    assert_eq!(report_format("json"), Ok(ReportFormat::Json));
    assert_eq!(report_format("pdf"), Err("Unknown format: pdf. Use markdown, html, or json.".to_string()));
}

#[test]
fn scenario_files_end_in_toml() {
    assert!(rproxy::bench::config::names_scenario_file("scenarios/api.toml"));
    assert!(!rproxy::bench::config::names_scenario_file("baseline"));
    assert!(!rproxy::bench::config::names_scenario_file("api.toml.bak"));
}
