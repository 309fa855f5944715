//! Configuration read from environment variables.

use rproxy::config::Config;
use rproxy::error::ProxyError;

fn vars(pairs: &[(&str, &str)]) -> Vec<(String, String)> {
    pairs.iter().map(|(k, v)| (k.to_string(), v.to_string())).collect()
}

fn config(pairs: &[(&str, &str)]) -> Config {
    Config::from_env_values(&vars(pairs)).unwrap()
}

#[test]
fn test_default_listen_address() {
    assert_eq!(config(&[]).server.listen_addr, "0.0.0.0:443");
}

#[test]
fn test_custom_listen_address() {
    assert_eq!(config(&[("RPROXY_LISTEN", "127.0.0.1:8080")]).server.listen_addr, "127.0.0.1:8080");
}

#[test]
fn test_default_http_port() {
    assert_eq!(config(&[]).server.http_port, 80);
}

#[test]
fn test_default_upstream() {
    assert_eq!(config(&[]).upstream.address, "127.0.0.1:3000");
}

#[test]
fn test_upstream_timeout_default() {
    assert_eq!(config(&[]).upstream.timeout_secs, 30);
}

#[test]
fn test_upstream_timeout_custom() {
    assert_eq!(config(&[("RPROXY_UPSTREAM_TIMEOUT", "60")]).upstream.timeout_secs, 60);
}

#[test]
fn test_tls_disabled_when_no_domains() {
    let c = config(&[]);
    assert!(!c.tls.enabled);
    assert!(c.tls.domains.is_empty());
}

#[test]
fn test_tls_enabled_with_domains() {
    let c = config(&[("RPROXY_TLS_DOMAINS", "example.com,www.example.com")]);
    assert!(c.tls.enabled);
    assert_eq!(c.tls.domains.len(), 2);
    assert_eq!(c.tls.domains[0], "example.com");
    assert_eq!(c.tls.domains[1], "www.example.com");
}

#[test]
fn test_rate_limit_defaults() {
    let c = config(&[]);
    assert_eq!(c.rate_limit.requests_per_second, 100);
    assert_eq!(c.rate_limit.burst_size, 200);
}

#[test]
fn test_rate_limit_custom() {
    let c = config(&[("RPROXY_RATE_LIMIT", "500"), ("RPROXY_RATE_BURST", "1000")]);
    assert_eq!(c.rate_limit.requests_per_second, 500);
    assert_eq!(c.rate_limit.burst_size, 1000);
}

#[test]
fn test_cache_enabled_default() {
    assert!(config(&[]).cache.enabled);
}

#[test]
fn test_cache_disabled() {
    assert!(!config(&[("RPROXY_CACHE_ENABLED", "false")]).cache.enabled);
}

#[test]
fn test_hsts_enabled_default() {
    assert!(config(&[]).security.hsts_enabled);
}

#[test]
fn test_blocked_paths_default() {
    let paths = config(&[]).filter.blocked_paths;
    assert!(paths.iter().any(|p| p.contains("/.env")));
    assert!(paths.iter().any(|p| p.contains("/.git")));
}

#[test]
fn test_websocket_paths_default() {
    let paths = config(&[]).websocket.paths;
    assert!(paths.iter().any(|p| p.contains("/_next/webpack-hmr")));
}

#[test]
fn test_log_level_default() {
    assert_eq!(config(&[]).log_level, "info");
}

#[test]
fn test_log_level_custom() {
    assert_eq!(config(&[("RPROXY_LOG_LEVEL", "debug")]).log_level, "debug");
}

#[test]
fn defaults_of_every_setting() {
    let c = config(&[]);
    assert_eq!(c.tls.email, "");
    assert_eq!(c.tls.cache_dir, "/var/lib/rproxy/certs");
    assert!(c.rate_limit.enabled);
    assert_eq!(c.cache.max_size, 500);
    assert_eq!(
        c.cache.paths,
        vec!["/_next/static/*", "/static/*", "*.css", "*.js", "*.woff2", "*.png", "*.jpg", "*.svg"]
    );
    assert!(c.filter.enabled);
    assert_eq!(
        c.filter.blocked_paths,
        vec!["/.env*", "/.git*", "/.svn*", "/.hg*", "/*.sql", "/*.bak", "/docker-compose*.yml"]
    );
    assert!(c.websocket.enabled);
    assert_eq!(c.websocket.paths, vec!["/_next/webpack-hmr", "/ws", "/ws/*", "/socket.io/*"]);
    assert_eq!(c.security.headers.len(), 4);
    assert_eq!(c.security.headers[0], ("X-Content-Type-Options".to_string(), "nosniff".to_string()));
    assert_eq!(c.security.headers[3], ("Referrer-Policy".to_string(), "strict-origin-when-cross-origin".to_string()));
}

#[test]
fn lists_are_trimmed_and_empty_entries_dropped() {
    let c = config(&[("RPROXY_TLS_DOMAINS", " a.com , ,b.com,"), ("RPROXY_WS_PATHS", "")]);
    assert_eq!(c.tls.domains, vec!["a.com", "b.com"]);
    assert!(c.tls.enabled);
    assert!(c.websocket.paths.is_empty());
}

#[test]
fn custom_http_port() {
    let c = config(&[("RPROXY_HTTP_PORT", "8080")]);
    assert_eq!(c.server.http_port, 8080);
}

#[test]
fn invalid_port_is_a_config_error() {
    let e = Config::from_env_values(&vars(&[("RPROXY_HTTP_PORT", "eighty")])).unwrap_err();
    assert_eq!(e, ProxyError::Config("Invalid value for RPROXY_HTTP_PORT: invalid digit found in string".to_string()));
}

#[test]
fn port_out_of_range_is_a_config_error() {
    let e = Config::from_env_values(&vars(&[("RPROXY_HTTP_PORT", "70000")])).unwrap_err();
    assert_eq!(e, ProxyError::Config("Invalid value for RPROXY_HTTP_PORT: number too large to fit in target type".to_string()));
}

#[test]
fn empty_number_is_a_config_error() {
    let e = Config::from_env_values(&vars(&[("RPROXY_RATE_LIMIT", "")])).unwrap_err();
    assert_eq!(e, ProxyError::Config("Invalid value for RPROXY_RATE_LIMIT: cannot parse integer from empty string".to_string()));
}

#[test]
fn invalid_bool_is_a_config_error() {
    let e = Config::from_env_values(&vars(&[("RPROXY_HSTS", "yes")])).unwrap_err();
    assert_eq!(e, ProxyError::Config("Invalid value for RPROXY_HSTS: provided string was not `true` or `false`".to_string()));
}

#[test]
fn first_invalid_variable_is_reported() {
    let e = Config::from_env_values(&vars(&[("RPROXY_HSTS", "yes"), ("RPROXY_HTTP_PORT", "x")])).unwrap_err();
    assert_eq!(e.message(), "Configuration error: Invalid value for RPROXY_HTTP_PORT: invalid digit found in string");
}

#[test]
fn error_messages() {
    assert_eq!(ProxyError::UpstreamTimeout.message(), "Upstream timeout");
    assert_eq!(ProxyError::RateLimited.message(), "Rate limited");
    assert_eq!(ProxyError::PathBlocked("/.env".to_string()).message(), "Path blocked: /.env");
    assert_eq!(ProxyError::Io("boom".to_string()).message(), "IO error: boom");
    assert_eq!(ProxyError::Tls("bad".to_string()).message(), "TLS error: bad");
    assert_eq!(ProxyError::UpstreamConnection("refused".to_string()).message(), "Upstream connection failed: refused");
    assert_eq!(ProxyError::WebSocket("x".to_string()).message(), "WebSocket error: x");
    assert_eq!(ProxyError::Http("h".to_string()).message(), "HTTP error: h");
    assert_eq!(ProxyError::Hyper("y".to_string()).message(), "Hyper error: y");
}

#[test]
fn signs_in_numbers() {
    assert_eq!(config(&[("RPROXY_HTTP_PORT", "+8081")]).server.http_port, 8081);
    let e = Config::from_env_values(&vars(&[("RPROXY_HTTP_PORT", "-1")])).unwrap_err();
    assert_eq!(e, ProxyError::Config("Invalid value for RPROXY_HTTP_PORT: invalid digit found in string".to_string()));
}
