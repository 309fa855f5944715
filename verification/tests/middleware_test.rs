//! Routing of requests through the middlewares, and the answers the proxy
//! gives itself.

use std::sync::Arc;

use http::header::{HeaderMap, HeaderValue};
use rproxy::config::Config;
use rproxy::middleware::cache::{store_settings, CacheMiddleware};
use rproxy::middleware::{refusal, upstream_failure, websocket_failure, MiddlewareStack, Route};

fn stack(pairs: &[(&str, &str)]) -> MiddlewareStack {
    let vars: Vec<(String, String)> = pairs.iter().map(|(k, v)| (k.to_string(), v.to_string())).collect();
    MiddlewareStack::new(Arc::new(Config::from_env_values(&vars).unwrap()))
}

fn upgrade_headers() -> HeaderMap {
    let mut h = HeaderMap::new();
    h.insert("connection", HeaderValue::from_static("Upgrade"));
    h.insert("upgrade", HeaderValue::from_static("websocket"));
    h
}

#[test]
fn rate_limited_requests_are_refused_first() {
    let s = stack(&[]);
    assert_eq!(s.decide(false, "GET", "/.env", &upgrade_headers()), Route::RateLimited);
}

#[test]
fn blocked_paths_are_refused() {
    let s = stack(&[]);
    assert_eq!(s.decide(true, "GET", "/.env", &HeaderMap::new()), Route::Blocked);
    assert_eq!(s.decide(true, "GET", "/ws/.git", &upgrade_headers()), Route::Blocked);
}

#[test]
fn websocket_upgrades_on_websocket_paths() {
    let s = stack(&[]);
    assert_eq!(s.decide(true, "GET", "/_next/webpack-hmr", &upgrade_headers()), Route::WebSocket);
    assert_eq!(s.decide(true, "GET", "/api", &upgrade_headers()), Route::Forward { try_cache: true });
    assert_eq!(s.decide(true, "GET", "/ws/chat", &HeaderMap::new()), Route::Forward { try_cache: true });
}

#[test]
fn cache_is_tried_for_get_and_head_only() {
    let s = stack(&[]);
    assert_eq!(s.decide(true, "HEAD", "/index.html", &HeaderMap::new()), Route::Forward { try_cache: true });
    assert_eq!(s.decide(true, "POST", "/index.html", &HeaderMap::new()), Route::Forward { try_cache: false });
    let off = stack(&[("RPROXY_CACHE_ENABLED", "false")]);
    assert_eq!(off.decide(true, "GET", "/index.html", &HeaderMap::new()), Route::Forward { try_cache: false });
}

#[test]
fn switched_off_middlewares_let_requests_through() {
    let mut s = stack(&[
        ("RPROXY_RATE_LIMIT_ENABLED", "false"),
        ("RPROXY_FILTER_ENABLED", "false"),
        ("RPROXY_WS_ENABLED", "false"),
    ]);
    assert_eq!(s.decide(false, "GET", "/.env", &upgrade_headers()), Route::Forward { try_cache: true });
    assert_eq!(s.route("GET", "/.env", &HeaderMap::new(), "1.2.3.4"), Route::Forward { try_cache: true });
}

#[test]
fn route_asks_the_limiter() {
    let mut s = stack(&[("RPROXY_RATE_LIMIT", "1"), ("RPROXY_RATE_BURST", "2")]);
    assert_eq!(s.route("GET", "/a", &HeaderMap::new(), "1.2.3.4"), Route::Forward { try_cache: true });
    assert_eq!(s.route("GET", "/a", &HeaderMap::new(), "1.2.3.4"), Route::Forward { try_cache: true });
    assert_eq!(s.route("GET", "/a", &HeaderMap::new(), "1.2.3.4"), Route::RateLimited);
    assert_eq!(s.route("GET", "/a", &HeaderMap::new(), "5.6.7.8"), Route::Forward { try_cache: true });
}

#[test]
fn refusal_answers() {
    let limited = refusal(Route::RateLimited).unwrap();
    assert_eq!(limited.status, 429);
    assert_eq!(limited.body, "Rate limit exceeded");
    assert_eq!(limited.content_type.as_deref(), Some("text/plain; charset=utf-8"));

    let blocked = refusal(Route::Blocked).unwrap();
    assert_eq!(blocked.status, 404);
    assert_eq!(blocked.body, "");
    assert!(blocked.content_type.is_none());

    assert!(refusal(Route::WebSocket).is_none());
    assert!(refusal(Route::Forward { try_cache: true }).is_none());

    assert_eq!(websocket_failure().status, 502);
    let upstream = upstream_failure();
    assert_eq!(upstream.status, 502);
    assert_eq!(upstream.body, "Upstream error");
}

#[test]
fn security_headers_on_responses() {
    let s = stack(&[]);
    let mut h = HeaderMap::new();
    s.secure_response(&mut h);
    assert_eq!(h.len(), 5);
    let no_hsts = stack(&[("RPROXY_HSTS", "false")]);
    let mut h2 = HeaderMap::new();
    no_hsts.secure_response(&mut h2);
    assert_eq!(h2.len(), 4);
}

#[test]
fn cacheable_requests_and_responses() {
    let s = stack(&[]);
    assert!(s.is_cacheable("GET", 200, "/static/app.js"));
    assert!(s.is_cacheable("HEAD", 204, "/_next/static/chunk.js"));
    assert!(s.is_cacheable("GET", 200, "/styles/site.css"));
    assert!(!s.is_cacheable("POST", 200, "/static/app.js"));
    assert!(!s.is_cacheable("GET", 404, "/static/app.js"));
    assert!(!s.is_cacheable("GET", 200, "/api/users"));

    let cache: &CacheMiddleware = s.cache_policy();
    let mut css = HeaderMap::new();
    css.insert("content-type", HeaderValue::from_static("text/css; charset=utf-8"));
    assert!(cache.is_cacheable_response(200, &css));
    assert!(!cache.is_cacheable_response(301, &css));
    let mut bin = HeaderMap::new();
    bin.insert("content-type", HeaderValue::from_static("application/octet-stream"));
    assert!(!cache.is_cacheable_response(200, &bin));
    assert!(!cache.is_cacheable_response(200, &HeaderMap::new()));

    let mut private = HeaderMap::new();
    private.insert("cache-control", HeaderValue::from_static("private, max-age=60"));
    assert!(!cache.should_store(&private, 10));
    assert!(cache.should_store(&HeaderMap::new(), 5 * 1024 * 1024));
    assert!(!cache.should_store(&HeaderMap::new(), 5 * 1024 * 1024 + 1));
}

#[test]
fn response_store_settings() {
    let config = Config::from_env_values(&vec![("RPROXY_CACHE_SIZE".to_string(), "42".to_string())]).unwrap();
    let settings = store_settings(&config.cache).unwrap();
    assert_eq!(settings.max_capacity, 42);
    assert_eq!(settings.time_to_live_secs, 3600);
    assert_eq!(settings.time_to_idle_secs, 600);
    let off = Config::from_env_values(&vec![("RPROXY_CACHE_ENABLED".to_string(), "false".to_string())]).unwrap();
    assert!(store_settings(&off.cache).is_none());
}

#[test]
fn security_headers_only_when_the_map_has_room() {
    let s = stack(&[]);
    let mut h = HeaderMap::new();
    h.insert("x-custom-header", HeaderValue::from_static("custom"));
    assert!(s.add_security_headers(&mut h));
    assert_eq!(h.keys_len(), 6);
    assert_eq!(h.get("x-custom-header").unwrap(), "custom");

    let mut full = HeaderMap::new();
    for i in 0..5996 {
        let name = http::header::HeaderName::from_bytes(format!("x-h{}", i).as_bytes()).unwrap();
        full.insert(name, HeaderValue::from_static("v"));
    }
    assert!(!s.add_security_headers(&mut full));
    assert_eq!(full.keys_len(), 5996);
    assert!(!full.contains_key("strict-transport-security"));
}

#[test]
fn first_request_of_each_address_passes() {
    let mut s = stack(&[("RPROXY_RATE_LIMIT", "1"), ("RPROXY_RATE_BURST", "1")]);
    for i in 0..20 {
        let ip = format!("10.0.0.{}", i);
        assert_eq!(s.route("GET", "/a", &HeaderMap::new(), &ip), Route::Forward { try_cache: true });
    }
    assert_eq!(s.route("GET", "/a", &HeaderMap::new(), "10.0.0.3"), Route::RateLimited);
}
