//! Decisions of the listening loops.

use http::header::{HeaderMap, HeaderValue};
use rproxy::config::Config;
use rproxy::server::{acme_contact, is_connection_closed_error, redirect_listen_addr, redirect_location};
use rproxy::text::decimal_text;

fn config(pairs: &[(&str, &str)]) -> Config {
    let vars: Vec<(String, String)> = pairs.iter().map(|(k, v)| (k.to_string(), v.to_string())).collect();
    Config::from_env_values(&vars).unwrap()
}

#[test]
fn closed_connections_are_recognised() {
    assert!(is_connection_closed_error("error shutting down connection: connection closed before message completed"));
    assert!(is_connection_closed_error("Connection reset by peer (os error 104)"));
    assert!(is_connection_closed_error("broken pipe"));
    assert!(is_connection_closed_error("connection reset"));
    assert!(!is_connection_closed_error("invalid HTTP method parsed"));
    assert!(!is_connection_closed_error("Connection Closed"));
}

#[test]
fn redirects_use_the_host_header() {
    let c = config(&[("RPROXY_TLS_DOMAINS", "example.com")]);
    let mut h = HeaderMap::new();
    h.insert("host", HeaderValue::from_static("www.example.com"));
    assert_eq!(redirect_location(&c, &h, Some("/a?b=1")), "https://www.example.com/a?b=1");
}

#[test]
fn redirects_without_host_use_the_first_domain() {
    let c = config(&[("RPROXY_TLS_DOMAINS", "example.com,www.example.com")]);
    assert_eq!(redirect_location(&c, &HeaderMap::new(), None), "https://example.com/");
    let none = config(&[]);
    assert_eq!(redirect_location(&none, &HeaderMap::new(), Some("/x")), "https://localhost/x");
}

#[test]
fn redirect_server_address() {
    assert_eq!(redirect_listen_addr(&config(&[])).unwrap(), "0.0.0.0:80");
    assert_eq!(redirect_listen_addr(&config(&[("RPROXY_HTTP_PORT", "8080")])).unwrap(), "0.0.0.0:8080");
    assert!(redirect_listen_addr(&config(&[("RPROXY_HTTP_PORT", "0")])).is_none());
}

#[test]
fn acme_contact_from_email() {
    assert_eq!(acme_contact(&config(&[("RPROXY_TLS_EMAIL", "admin@example.com")])).unwrap(), "mailto:admin@example.com");
    assert!(acme_contact(&config(&[])).is_none());
}

#[test]
fn decimal_numbers() {
    assert_eq!(decimal_text(0), "0");
    assert_eq!(decimal_text(7), "7");
    assert_eq!(decimal_text(65535), "65535");
    assert_eq!(decimal_text(u64::MAX), "18446744073709551615");
}

#[test]
fn redirect_answer() {
    let c = config(&[("RPROXY_TLS_DOMAINS", "example.com")]);
    let mut h = HeaderMap::new();
    h.insert("host", HeaderValue::from_static("www.example.com"));
    let r = rproxy::server::redirect_response(&c, &h, Some("/a?b=1"));
    assert_eq!(r.status, 301);
    assert!(r.body.is_empty());
    assert!(r.content_type.is_none());
    assert_eq!(
        r.headers,
        vec![
            ("Location".to_string(), "https://www.example.com/a?b=1".to_string()),
            ("Content-Length".to_string(), "0".to_string()),
        ]
    );
}
