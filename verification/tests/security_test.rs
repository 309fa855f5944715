//! Security response headers.

use http::header::{HeaderMap, HeaderValue};
use rproxy::config::{Config, SecurityConfig};
use rproxy::middleware::security::SecurityMiddleware;

/// The default security configuration with the given HSTS switch.
fn add_security_headers(headers: &mut HeaderMap, hsts_enabled: bool) {
    let defaults = Config::from_env_values(&Vec::new()).unwrap().security;
    let config = SecurityConfig { hsts_enabled, headers: defaults.headers };
    SecurityMiddleware::new(&config).add_headers(headers);
}

#[test]
fn test_hsts_header_when_enabled() {
    let mut headers = HeaderMap::new();
    add_security_headers(&mut headers, true);

    let hsts = headers.get("strict-transport-security").unwrap();
    assert_eq!(hsts, "max-age=31536000; includeSubDomains");
}

#[test]
fn test_hsts_header_when_disabled() {
    let mut headers = HeaderMap::new();
    add_security_headers(&mut headers, false);

    assert!(headers.get("strict-transport-security").is_none());
}

#[test]
fn test_x_content_type_options_header() {
    let mut headers = HeaderMap::new();
    add_security_headers(&mut headers, true);

    let header = headers.get("x-content-type-options").unwrap();
    assert_eq!(header, "nosniff");
}

#[test]
fn test_x_frame_options_header() {
    let mut headers = HeaderMap::new();
    add_security_headers(&mut headers, true);

    let header = headers.get("x-frame-options").unwrap();
    assert_eq!(header, "DENY");
}

#[test]
fn test_x_xss_protection_header() {
    let mut headers = HeaderMap::new();
    add_security_headers(&mut headers, true);

    let header = headers.get("x-xss-protection").unwrap();
    assert_eq!(header, "1; mode=block");
}

#[test]
fn test_referrer_policy_header() {
    let mut headers = HeaderMap::new();
    add_security_headers(&mut headers, true);

    let header = headers.get("referrer-policy").unwrap();
    assert_eq!(header, "strict-origin-when-cross-origin");
}

#[test]
fn test_all_headers_present() {
    let mut headers = HeaderMap::new();
    add_security_headers(&mut headers, true);

    assert_eq!(headers.len(), 5);
    assert!(headers.contains_key("strict-transport-security"));
    assert!(headers.contains_key("x-content-type-options"));
    assert!(headers.contains_key("x-frame-options"));
    assert!(headers.contains_key("x-xss-protection"));
    assert!(headers.contains_key("referrer-policy"));
}

#[test]
fn test_headers_without_hsts() {
    let mut headers = HeaderMap::new();
    add_security_headers(&mut headers, false);

    assert_eq!(headers.len(), 4);
    assert!(!headers.contains_key("strict-transport-security"));
}

#[test]
fn test_headers_do_not_overwrite_existing() {
    let mut headers = HeaderMap::new();
    headers.insert("x-custom-header", HeaderValue::from_static("custom"));

    add_security_headers(&mut headers, true);

    assert_eq!(headers.get("x-custom-header").unwrap(), "custom");
    assert_eq!(headers.len(), 6);
}

#[test]
fn test_hsts_max_age_is_one_year() {
    let mut headers = HeaderMap::new();
    add_security_headers(&mut headers, true);

    let hsts = headers.get("strict-transport-security").unwrap().to_str().unwrap();
    let max_age_secs = 365 * 24 * 60 * 60;
    assert_eq!(max_age_secs, 31536000);
    assert!(hsts.contains("max-age=31536000"));
}

#[test]
fn test_hsts_includes_subdomains() {
    let mut headers = HeaderMap::new();
    add_security_headers(&mut headers, true);

    let hsts = headers.get("strict-transport-security").unwrap().to_str().unwrap();
    assert!(hsts.contains("includeSubDomains"));
}

#[test]
fn test_x_frame_options_deny_prevents_clickjacking() {
    let mut headers = HeaderMap::new();
    add_security_headers(&mut headers, true);

    let xfo = headers.get("x-frame-options").unwrap().to_str().unwrap();
    assert_eq!(xfo, "DENY");
}

#[test]
fn test_content_type_options_nosniff() {
    let mut headers = HeaderMap::new();
    add_security_headers(&mut headers, true);

    let xcto = headers.get("x-content-type-options").unwrap().to_str().unwrap();
    assert_eq!(xcto, "nosniff");
}

#[test]
fn adding_twice_changes_nothing() {
    let mut headers = HeaderMap::new();
    headers.insert("content-type", HeaderValue::from_static("text/html"));
    add_security_headers(&mut headers, true);
    let once = headers.clone();
    add_security_headers(&mut headers, true);
    assert_eq!(headers, once);
}

#[test]
fn configured_headers_replace_response_values() {
    let mut headers = HeaderMap::new();
    headers.insert("x-frame-options", HeaderValue::from_static("SAMEORIGIN"));
    add_security_headers(&mut headers, false);
    assert_eq!(headers.get("x-frame-options").unwrap(), "DENY");
    assert_eq!(headers.get_all("x-frame-options").iter().count(), 1);
}

#[test]
fn invalid_configured_pairs_are_skipped() {
    let config = SecurityConfig {
        hsts_enabled: false,
        headers: vec![
            ("bad name".to_string(), "x".to_string()),
            ("X-Ok".to_string(), "fine".to_string()),
            ("X-Bad-Value".to_string(), "line\nbreak".to_string()),
        ],
    };
    let mut headers = HeaderMap::new();
    SecurityMiddleware::new(&config).add_headers(&mut headers);
    assert_eq!(headers.len(), 1);
    assert_eq!(headers.get("x-ok").unwrap(), "fine");
}
