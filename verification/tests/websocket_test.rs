//! The WebSocket handshake: upgrade detection, accept keys, base64, SHA-1.

use http::header::{HeaderMap, HeaderValue};
use rproxy::base64::base64_encode;
use rproxy::config::Config;
use rproxy::middleware::ws_path_matches_exec;
use rproxy::sha1::Sha1;
use rproxy::websocket::{
    generate_accept_key, handshake_accept, is_websocket_upgrade, upgrade_response_headers,
    upstream_ws_url,
};

#[test]
fn test_websocket_upgrade_detection_valid() {
    let mut headers = HeaderMap::new();
    headers.insert("connection", HeaderValue::from_static("Upgrade"));
    headers.insert("upgrade", HeaderValue::from_static("websocket"));

    assert!(is_websocket_upgrade(&headers));
}

#[test]
fn test_websocket_upgrade_case_insensitive() {
    let mut headers = HeaderMap::new();
    headers.insert("connection", HeaderValue::from_static("UPGRADE"));
    headers.insert("upgrade", HeaderValue::from_static("WEBSOCKET"));

    assert!(is_websocket_upgrade(&headers));
}

#[test]
fn test_websocket_upgrade_mixed_case() {
    let mut headers = HeaderMap::new();
    headers.insert("connection", HeaderValue::from_static("Upgrade"));
    headers.insert("upgrade", HeaderValue::from_static("WebSocket"));

    assert!(is_websocket_upgrade(&headers));
}

#[test]
fn test_websocket_upgrade_with_keep_alive() {
    let mut headers = HeaderMap::new();
    headers.insert("connection", HeaderValue::from_static("keep-alive, Upgrade"));
    headers.insert("upgrade", HeaderValue::from_static("websocket"));

    assert!(is_websocket_upgrade(&headers));
}

#[test]
fn test_not_websocket_missing_connection() {
    let mut headers = HeaderMap::new();
    headers.insert("upgrade", HeaderValue::from_static("websocket"));

    assert!(!is_websocket_upgrade(&headers));
}

#[test]
fn test_not_websocket_missing_upgrade() {
    let mut headers = HeaderMap::new();
    headers.insert("connection", HeaderValue::from_static("Upgrade"));

    assert!(!is_websocket_upgrade(&headers));
}

#[test]
fn test_not_websocket_wrong_upgrade_value() {
    let mut headers = HeaderMap::new();
    headers.insert("connection", HeaderValue::from_static("Upgrade"));
    headers.insert("upgrade", HeaderValue::from_static("h2c"));

    assert!(!is_websocket_upgrade(&headers));
}

#[test]
fn test_not_websocket_wrong_connection_value() {
    let mut headers = HeaderMap::new();
    headers.insert("connection", HeaderValue::from_static("keep-alive"));
    headers.insert("upgrade", HeaderValue::from_static("websocket"));

    assert!(!is_websocket_upgrade(&headers));
}

#[test]
fn test_not_websocket_empty_headers() {
    let headers = HeaderMap::new();
    assert!(!is_websocket_upgrade(&headers));
}

#[test]
fn test_websocket_accept_key_generation() {
    let key = "dGhlIHNhbXBsZSBub25jZQ==";
    let expected = "s3pPLMBiTxaQ9kYGzzhZRbK+xOo=";

    let accept = generate_accept_key(key);
    assert_eq!(accept, expected);
}

#[test]
fn accept_key_second_known_value() {
    assert_eq!(generate_accept_key("x3JJHMbDL1EzLkh9GBhXDw=="), "HSmrc0sMlYUkAGmm5OPpG2HaGWk=");
}

#[test]
fn accept_keys_are_28_characters() {
    for key in ["", "a", "dGhlIHNhbXBsZSBub25jZQ==", "a much longer key than any client would send"] {
        assert_eq!(generate_accept_key(key).len(), 28);
    }
}

#[test]
fn test_base64_encoding() {
    assert_eq!(base64_encode(&[]), "");
    assert_eq!(base64_encode(&[0x4d]), "TQ==");
    assert_eq!(base64_encode(&[0x4d, 0x61]), "TWE=");
    assert_eq!(base64_encode(&[0x4d, 0x61, 0x6e]), "TWFu");
}

#[test]
fn base64_of_all_byte_values() {
    let data: Vec<u8> = (0..=255u8).collect();
    let encoded = base64_encode(&data);
    assert_eq!(encoded.len(), 344);
    assert!(encoded.starts_with("AAECAwQFBgcICQoLDA0ODxAREhMUFRYXGBkaGxwdHh8g"));
    assert!(encoded.ends_with("+fr7/P3+/w=="));
}

#[test]
fn test_sha1_empty_string() {
    let mut hasher = Sha1::new();
    hasher.update(b"");
    let digest = hasher.digest();

    let expected: [u8; 20] = [
        0xda, 0x39, 0xa3, 0xee, 0x5e, 0x6b, 0x4b, 0x0d, 0x32, 0x55, 0xbf, 0xef, 0x95, 0x60, 0x18,
        0x90, 0xaf, 0xd8, 0x07, 0x09,
    ];
    assert_eq!(digest.bytes(), expected);
}

#[test]
fn test_sha1_abc() {
    let mut hasher = Sha1::new();
    hasher.update(b"abc");
    let digest = hasher.digest();

    let expected: [u8; 20] = [
        0xa9, 0x99, 0x3e, 0x36, 0x47, 0x06, 0x81, 0x6a, 0xba, 0x3e, 0x25, 0x71, 0x78, 0x50, 0xc2,
        0x6c, 0x9c, 0xd0, 0xd8, 0x9d,
    ];
    assert_eq!(digest.bytes(), expected);
}

#[test]
fn sha1_two_blocks_and_split_updates() {
    let text = b"abcdbcdecdefdefgefghfghighijhijkijkljklmklmnlmnomnopnopq";
    let expected: [u8; 20] = [
        0x84, 0x98, 0x3e, 0x44, 0x1c, 0x3b, 0xd2, 0x6e, 0xba, 0xae, 0x4a, 0xa1, 0xf9, 0x51, 0x29,
        0xe5, 0xe5, 0x46, 0x70, 0xf1,
    ];
    let mut whole = Sha1::new();
    whole.update(text);
    assert_eq!(whole.digest().bytes(), expected);

    let mut pieces = Sha1::new();
    pieces.update(&text[..5]);
    pieces.update(&text[5..40]);
    pieces.update(&text[40..]);
    assert_eq!(pieces.digest().bytes(), expected);
}

#[test]
fn sha1_million_a() {
    let chunk = [b'a'; 1000];
    let mut hasher = Sha1::new();
    for _ in 0..1000 {
        hasher.update(&chunk);
    }
    let expected: [u8; 20] = [
        0x34, 0xaa, 0x97, 0x3c, 0xd4, 0xc4, 0xda, 0xa4, 0xf6, 0x1e, 0xeb, 0x2b, 0xdb, 0xad, 0x27,
        0x31, 0x65, 0x34, 0x01, 0x6f,
    ];
    assert_eq!(hasher.digest().bytes(), expected);
}

fn patterns(list: &[&str]) -> Vec<String> {
    list.iter().map(|p| p.to_string()).collect()
}

#[test]
fn test_websocket_default_paths() {
    let default_patterns = patterns(&["/_next/webpack-hmr", "/ws", "/ws/*", "/socket.io/*"]);

    assert!(ws_path_matches_exec(&default_patterns, "/_next/webpack-hmr"));
    assert!(ws_path_matches_exec(&default_patterns, "/ws"));
    assert!(ws_path_matches_exec(&default_patterns, "/ws/chat"));
    assert!(ws_path_matches_exec(&default_patterns, "/socket.io/123"));

    assert!(!ws_path_matches_exec(&default_patterns, "/api/data"));
    assert!(!ws_path_matches_exec(&default_patterns, "/"));
}

#[test]
fn websocket_path_matching_cases() {
    assert!(ws_path_matches_exec(&patterns(&["/_next/webpack-hmr"]), "/_next/webpack-hmr"));
    assert!(!ws_path_matches_exec(&patterns(&["/ws/*"]), "/_next/webpack-hmr"));
    assert!(ws_path_matches_exec(&patterns(&["/ws/*"]), "/ws/chat"));
    assert!(ws_path_matches_exec(&patterns(&["/ws/*"]), "/ws/notifications"));
    assert!(ws_path_matches_exec(&patterns(&["/socket.io/*"]), "/socket.io/123"));
    assert!(!ws_path_matches_exec(&patterns(&["/_next/webpack-hmr", "/ws/*"]), "/api/data"));
    assert!(ws_path_matches_exec(&patterns(&["/live*"]), "/livestream"));
    assert!(!ws_path_matches_exec(&patterns(&[]), "/ws"));
}

#[test]
fn handshake_answers_the_client_key() {
    let mut headers = HeaderMap::new();
    headers.insert("sec-websocket-key", HeaderValue::from_static("dGhlIHNhbXBsZSBub25jZQ=="));
    assert_eq!(handshake_accept(&headers).unwrap(), "s3pPLMBiTxaQ9kYGzzhZRbK+xOo=");

    let empty = HeaderMap::new();
    assert!(handshake_accept(&empty).is_none());
}

#[test]
fn upgrade_answer_headers() {
    let h = upgrade_response_headers("abc=");
    assert_eq!(
        h,
        vec![
            ("Upgrade".to_string(), "websocket".to_string()),
            ("Connection".to_string(), "Upgrade".to_string()),
            ("Sec-WebSocket-Accept".to_string(), "abc=".to_string()),
        ]
    );
}

#[test]
fn upstream_websocket_url() {
    let config = Config::from_env_values(&vec![("RPROXY_UPSTREAM".to_string(), "app:3000".to_string())]).unwrap();
    assert_eq!(upstream_ws_url(&config, "/_next/webpack-hmr"), "ws://app:3000/_next/webpack-hmr");
}

#[test]
fn handshake_answers_and_refusals() {
    let mut headers = HeaderMap::new();
    headers.insert("sec-websocket-key", HeaderValue::from_static("dGhlIHNhbXBsZSBub25jZQ=="));
    assert_eq!(rproxy::websocket::handshake_answer(&headers).unwrap(), "s3pPLMBiTxaQ9kYGzzhZRbK+xOo=");

    let refused = rproxy::websocket::handshake_answer(&HeaderMap::new()).unwrap_err();
    assert_eq!(refused.status, 400);
    assert!(refused.body.is_empty());
    assert!(refused.headers.is_empty());
    assert!(refused.content_type.is_none());

    let mut bad = HeaderMap::new();
    bad.insert("sec-websocket-key", HeaderValue::from_bytes(b"k\xc3\xa9y").unwrap());
    assert_eq!(rproxy::websocket::handshake_answer(&bad).unwrap_err().status, 400);
}

#[test]
fn switching_protocols_answer() {
    let r = rproxy::websocket::switching_protocols("s3pPLMBiTxaQ9kYGzzhZRbK+xOo=");
    assert_eq!(r.status, 101);
    assert!(r.body.is_empty());
    assert!(r.content_type.is_none());
    assert_eq!(r.headers, upgrade_response_headers("s3pPLMBiTxaQ9kYGzzhZRbK+xOo="));
}

#[test]
fn base64_padding() {
    assert!(!base64_encode(b"abcdef").contains('='));
    assert!(base64_encode(b"abcd").ends_with("=="));
    assert!(base64_encode(b"abcde").ends_with("=") && !base64_encode(b"abcde").ends_with("=="));
}
