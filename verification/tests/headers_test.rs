//! Hop-by-hop stripping and forwarding headers.

use std::sync::Arc;

use http::header::{HeaderMap, HeaderValue};
use rproxy::config::Config;
use rproxy::proxy::ProxyHandler;

fn handler(tls: bool) -> ProxyHandler {
    let mut vars: Vec<(String, String)> = Vec::new();
    if tls {
        vars.push(("RPROXY_TLS_DOMAINS".to_string(), "example.com".to_string()));
    }
    let config = Config::from_env_values(&vars).unwrap();
    assert_eq!(config.tls.enabled, tls);
    ProxyHandler::new(Arc::new(config)).unwrap()
}

fn strip_hop_by_hop_headers(headers: &mut HeaderMap) {
    handler(false).strip_hop_by_hop_headers(headers);
}

fn add_forwarding_headers(headers: &mut HeaderMap, client_ip: &str, is_tls: bool) {
    handler(is_tls).add_forwarding_headers(headers, client_ip);
}

#[test]
fn test_strip_connection_header() {
    let mut headers = HeaderMap::new();
    headers.insert("connection", HeaderValue::from_static("keep-alive"));
    headers.insert("content-type", HeaderValue::from_static("application/json"));

    strip_hop_by_hop_headers(&mut headers);

    assert!(!headers.contains_key("connection"));
    assert!(headers.contains_key("content-type"));
}

#[test]
fn test_strip_keep_alive_header() {
    let mut headers = HeaderMap::new();
    headers.insert("keep-alive", HeaderValue::from_static("timeout=5"));

    strip_hop_by_hop_headers(&mut headers);

    assert!(!headers.contains_key("keep-alive"));
}

#[test]
fn test_strip_proxy_headers() {
    let mut headers = HeaderMap::new();
    headers.insert("proxy-authenticate", HeaderValue::from_static("Basic"));
    headers.insert("proxy-authorization", HeaderValue::from_static("Basic abc123"));

    strip_hop_by_hop_headers(&mut headers);

    assert!(!headers.contains_key("proxy-authenticate"));
    assert!(!headers.contains_key("proxy-authorization"));
}

#[test]
fn test_strip_transfer_encoding_header() {
    let mut headers = HeaderMap::new();
    headers.insert("transfer-encoding", HeaderValue::from_static("chunked"));

    strip_hop_by_hop_headers(&mut headers);

    assert!(!headers.contains_key("transfer-encoding"));
}

#[test]
fn test_strip_te_header() {
    let mut headers = HeaderMap::new();
    headers.insert("te", HeaderValue::from_static("trailers"));

    strip_hop_by_hop_headers(&mut headers);

    assert!(!headers.contains_key("te"));
}

#[test]
fn test_strip_trailer_header() {
    let mut headers = HeaderMap::new();
    headers.insert("trailer", HeaderValue::from_static("Expires"));

    strip_hop_by_hop_headers(&mut headers);

    assert!(!headers.contains_key("trailer"));
}

#[test]
fn test_strip_all_hop_by_hop_headers() {
    let mut headers = HeaderMap::new();
    headers.insert("connection", HeaderValue::from_static("keep-alive"));
    headers.insert("keep-alive", HeaderValue::from_static("timeout=5"));
    headers.insert("proxy-authenticate", HeaderValue::from_static("Basic"));
    headers.insert("proxy-authorization", HeaderValue::from_static("Basic abc"));
    headers.insert("te", HeaderValue::from_static("trailers"));
    headers.insert("trailer", HeaderValue::from_static("Expires"));
    headers.insert("transfer-encoding", HeaderValue::from_static("chunked"));
    headers.insert("content-type", HeaderValue::from_static("application/json"));
    headers.insert("accept", HeaderValue::from_static("*/*"));

    strip_hop_by_hop_headers(&mut headers);

    assert_eq!(headers.len(), 2);
    assert!(headers.contains_key("content-type"));
    assert!(headers.contains_key("accept"));
}

#[test]
fn test_add_x_forwarded_for_new() {
    let mut headers = HeaderMap::new();

    add_forwarding_headers(&mut headers, "192.168.1.100", false);

    assert_eq!(headers.get("x-forwarded-for").unwrap(), "192.168.1.100");
}

#[test]
fn test_add_x_forwarded_for_append() {
    let mut headers = HeaderMap::new();
    headers.insert("x-forwarded-for", HeaderValue::from_static("10.0.0.1"));

    add_forwarding_headers(&mut headers, "192.168.1.100", false);

    assert_eq!(headers.get("x-forwarded-for").unwrap(), "10.0.0.1, 192.168.1.100");
}

#[test]
fn test_add_x_forwarded_for_chain() {
    let mut headers = HeaderMap::new();
    headers.insert("x-forwarded-for", HeaderValue::from_static("10.0.0.1, 10.0.0.2"));

    add_forwarding_headers(&mut headers, "192.168.1.100", false);

    assert_eq!(headers.get("x-forwarded-for").unwrap(), "10.0.0.1, 10.0.0.2, 192.168.1.100");
}

#[test]
fn test_add_x_real_ip_new() {
    let mut headers = HeaderMap::new();

    add_forwarding_headers(&mut headers, "192.168.1.100", false);

    assert_eq!(headers.get("x-real-ip").unwrap(), "192.168.1.100");
}

#[test]
fn test_add_x_real_ip_preserves_existing() {
    let mut headers = HeaderMap::new();
    headers.insert("x-real-ip", HeaderValue::from_static("10.0.0.1"));

    add_forwarding_headers(&mut headers, "192.168.1.100", false);

    assert_eq!(headers.get("x-real-ip").unwrap(), "10.0.0.1");
}

#[test]
fn test_add_x_forwarded_proto_http() {
    let mut headers = HeaderMap::new();

    add_forwarding_headers(&mut headers, "192.168.1.100", false);

    assert_eq!(headers.get("x-forwarded-proto").unwrap(), "http");
}

#[test]
fn test_add_x_forwarded_proto_https() {
    let mut headers = HeaderMap::new();

    add_forwarding_headers(&mut headers, "192.168.1.100", true);

    assert_eq!(headers.get("x-forwarded-proto").unwrap(), "https");
}

#[test]
fn test_add_x_forwarded_proto_preserves_existing() {
    let mut headers = HeaderMap::new();
    headers.insert("x-forwarded-proto", HeaderValue::from_static("https"));

    add_forwarding_headers(&mut headers, "192.168.1.100", false);

    assert_eq!(headers.get("x-forwarded-proto").unwrap(), "https");
}

#[test]
fn test_forwarding_headers_ipv6() {
    let mut headers = HeaderMap::new();

    add_forwarding_headers(&mut headers, "2001:db8::1", true);

    assert_eq!(headers.get("x-forwarded-for").unwrap(), "2001:db8::1");
    assert_eq!(headers.get("x-real-ip").unwrap(), "2001:db8::1");
}

#[test]
fn test_forwarding_headers_localhost() {
    let mut headers = HeaderMap::new();

    add_forwarding_headers(&mut headers, "127.0.0.1", false);

    assert_eq!(headers.get("x-forwarded-for").unwrap(), "127.0.0.1");
    assert_eq!(headers.get("x-real-ip").unwrap(), "127.0.0.1");
}

#[test]
fn test_full_header_processing() {
    let mut headers = HeaderMap::new();
    headers.insert("connection", HeaderValue::from_static("keep-alive"));
    headers.insert("transfer-encoding", HeaderValue::from_static("chunked"));
    headers.insert("content-type", HeaderValue::from_static("application/json"));
    headers.insert("accept", HeaderValue::from_static("*/*"));
    headers.insert("host", HeaderValue::from_static("api.example.com"));

    strip_hop_by_hop_headers(&mut headers);

    add_forwarding_headers(&mut headers, "203.0.113.50", true);

    assert!(!headers.contains_key("connection"));
    assert!(!headers.contains_key("transfer-encoding"));
    assert!(headers.contains_key("content-type"));
    assert!(headers.contains_key("accept"));
    assert!(headers.contains_key("host"));
    assert_eq!(headers.get("x-forwarded-for").unwrap(), "203.0.113.50");
    assert_eq!(headers.get("x-real-ip").unwrap(), "203.0.113.50");
    assert_eq!(headers.get("x-forwarded-proto").unwrap(), "https");
}

#[test]
fn forwarded_host_comes_from_host() {
    let mut headers = HeaderMap::new();
    headers.insert("host", HeaderValue::from_static("api.example.com"));

    add_forwarding_headers(&mut headers, "10.1.2.3", false);

    assert_eq!(headers.get("x-forwarded-host").unwrap(), "api.example.com");
}

#[test]
fn forwarded_host_is_kept() {
    let mut headers = HeaderMap::new();
    headers.insert("host", HeaderValue::from_static("api.example.com"));
    headers.insert("x-forwarded-host", HeaderValue::from_static("front.example.com"));

    add_forwarding_headers(&mut headers, "10.1.2.3", false);

    assert_eq!(headers.get("x-forwarded-host").unwrap(), "front.example.com");
}

#[test]
fn forwarded_for_chain_over_two_proxies() {
    let mut headers = HeaderMap::new();

    add_forwarding_headers(&mut headers, "10.0.0.1", false);
    add_forwarding_headers(&mut headers, "10.0.0.2", false);

    assert_eq!(headers.get("x-forwarded-for").unwrap(), "10.0.0.1, 10.0.0.2");
    assert_eq!(headers.get("x-real-ip").unwrap(), "10.0.0.1");
}

#[test]
fn stripping_twice_changes_nothing() {
    let mut headers = HeaderMap::new();
    headers.insert("connection", HeaderValue::from_static("close"));
    headers.insert("accept", HeaderValue::from_static("*/*"));

    strip_hop_by_hop_headers(&mut headers);
    let once = headers.clone();
    strip_hop_by_hop_headers(&mut headers);

    assert_eq!(headers, once);
    assert_eq!(headers.len(), 1);
}

#[test]
fn opaque_forwarded_for_is_replaced_by_an_empty_chain() {
    let mut headers = HeaderMap::new();
    headers.insert("x-forwarded-for", HeaderValue::from_bytes(b"caf\xc3\xa9").unwrap());

    add_forwarding_headers(&mut headers, "1.2.3.4", false);

    assert_eq!(headers.get("x-forwarded-for").unwrap(), ", 1.2.3.4");
}

#[test]
fn prepared_request_is_forwarded_then_stripped() {
    let mut headers = HeaderMap::new();
    headers.insert("connection", HeaderValue::from_static("close"));
    headers.insert("host", HeaderValue::from_static("example.com"));
    headers.insert("x-forwarded-for", HeaderValue::from_static("10.0.0.1"));

    assert!(handler(true).prepare_request(&mut headers, "192.168.1.1"));
    assert!(!headers.contains_key("connection"));
    assert_eq!(headers.get("x-forwarded-for").unwrap(), "10.0.0.1, 192.168.1.1");
    assert_eq!(headers.get("x-real-ip").unwrap(), "192.168.1.1");
    assert_eq!(headers.get("x-forwarded-proto").unwrap(), "https");
    assert_eq!(headers.get("x-forwarded-host").unwrap(), "example.com");
    assert_eq!(headers.keys_len(), 5);
}

#[test]
fn request_without_room_is_left_alone() {
    let mut headers = HeaderMap::new();
    for i in 0..5997 {
        let name = http::header::HeaderName::from_bytes(format!("x-h{}", i).as_bytes()).unwrap();
        headers.insert(name, HeaderValue::from_static("v"));
    }
    headers.insert("connection", HeaderValue::from_static("close"));
    let before = headers.clone();
    assert!(!handler(false).prepare_request(&mut headers, "1.2.3.4"));
    assert_eq!(headers, before);
}

#[test]
fn room_for_counts_names() {
    let mut headers = HeaderMap::new();
    headers.insert("accept", HeaderValue::from_static("*/*"));
    headers.append("accept", HeaderValue::from_static("text/html"));
    assert!(rproxy::headers::room_for(&headers, 5999));
    assert!(!rproxy::headers::room_for(&headers, 6000));
    assert!(!rproxy::headers::room_for(&headers, usize::MAX));
}
