//! The WebSocket upgrade handshake (RFC 6455).

use vstd::prelude::*;
use http::header::HeaderMap;

use crate::base64::{base64, base64_encode};
use crate::headers::{
    ascii_chars, header_get, header_map_contents, header_text, header_text_of,
    header_value_to_str, known_name, visible_value,
};
use crate::sha1::{sha1, Sha1};
use crate::config::Config;
use crate::proxy::{empty_response, is_empty_response, PlainResponse};
use crate::text::{ascii_lower, chars_of, concat_str, contains, contains_chars, to_ascii_lower};

verus! {

/// The GUID that RFC 6455 appends to the client's key.
pub const WEBSOCKET_GUID: &'static str = "258EAFA5-E914-47DA-95CA-C5AB0DC85B11";

/// The lower-cased text of the first value under `name`, when the map has
/// one and it is visible ASCII.
pub open spec fn header_text_lower(m: Map<Seq<char>, Seq<Seq<u8>>>, name: Seq<char>) -> Option<
    Seq<char>,
> {
    if m.dom().contains(name) && visible_value(m[name][0]) {
        Some(ascii_lower(ascii_chars(m[name][0])))
    } else {
        None
    }
}

/// The header value under `name`, lower-cased, contains `word`.
pub open spec fn header_mentions(
    m: Map<Seq<char>, Seq<Seq<u8>>>,
    name: Seq<char>,
    word: Seq<char>,
) -> bool {
    header_text_lower(m, name) matches Some(t) && contains(t, word)
}

/// A request asks for a WebSocket upgrade when its `Connection` header
/// mentions `upgrade` and its `Upgrade` header mentions `websocket`, in any case.
pub open spec fn is_upgrade_request(m: Map<Seq<char>, Seq<Seq<u8>>>) -> bool {
    header_mentions(m, "connection"@, "upgrade"@) && header_mentions(m, "upgrade"@, "websocket"@)
}

/// A request is an upgrade exactly when the lower-cased first value of its
/// `Connection` header contains `upgrade` and that of its `Upgrade` header
/// contains `websocket`; a request missing either header is none.
pub proof fn law_upgrade_request(m: Map<Seq<char>, Seq<Seq<u8>>>)
    ensures
        is_upgrade_request(m) <==> (header_text_lower(m, "connection"@) matches Some(c) && contains(
            c,
            "upgrade"@,
        )) && (header_text_lower(m, "upgrade"@) matches Some(u) && contains(u, "websocket"@)),
        !m.dom().contains("connection"@) || !m.dom().contains("upgrade"@) ==> !is_upgrade_request(m),
{
}

/// The `Sec-WebSocket-Accept` value for a client key.
pub open spec fn accept_key(key: Seq<char>) -> Seq<char> {
    base64(sha1(vstd::utf8::encode_utf8(key) + vstd::utf8::encode_utf8(WEBSOCKET_GUID@)))
}

/// Every `Sec-WebSocket-Accept` value is 28 characters long: the base64 of
/// a 20-byte SHA-1 digest.
pub proof fn law_accept_key_length(key: Seq<char>)
    ensures
        sha1(vstd::utf8::encode_utf8(key) + vstd::utf8::encode_utf8(WEBSOCKET_GUID@)).len() == 20,
        accept_key(key).len() == 28,
{
    let digest = sha1(vstd::utf8::encode_utf8(key) + vstd::utf8::encode_utf8(WEBSOCKET_GUID@));
    crate::base64::law_base64_length(digest);
}

/// Whether the lower-cased first value under `name` contains `word`.
fn header_mentions_exec(headers: &HeaderMap, name: &str, word: &str) -> (r: bool)
    requires
        crate::headers::valid_header_name(name@),
        forall|i: int| 0 <= i < name@.len() ==> !crate::text::is_ascii_upper(#[trigger] name@[i]),
    ensures
        r == header_mentions(header_map_contents(*headers), name@, word@),
{
    let n = known_name(name);
    match header_get(headers, &n) {
        Some(v) => match header_value_to_str(&v) {
            Some(t) => {
                let lower = to_ascii_lower(&chars_of(t));
                contains_chars(&lower, &chars_of(word))
            },
            None => false,
        },
        None => false,
    }
}

/// Whether the request headers ask for a WebSocket upgrade.
pub fn is_websocket_upgrade(headers: &HeaderMap) -> (r: bool)
    ensures
        r == is_upgrade_request(header_map_contents(*headers)),
{
    proof {
        reveal_strlit("connection");
        reveal_strlit("upgrade");
    }
    header_mentions_exec(headers, "connection", "upgrade") && header_mentions_exec(
        headers,
        "upgrade",
        "websocket",
    )
}

/// The `Sec-WebSocket-Accept` value for a client key: base64 of the SHA-1
/// of the key followed by the RFC 6455 GUID.
pub fn generate_accept_key(key: &str) -> (r: String)
    requires
        vstd::utf8::encode_utf8(key@).len() + vstd::utf8::encode_utf8(WEBSOCKET_GUID@).len()
            < 0x2000_0000_0000_0000,
    ensures
        r@ == accept_key(key@),
{
    let mut hasher = Sha1::new();
    hasher.update(key.as_bytes());
    hasher.update(WEBSOCKET_GUID.as_bytes());
    let digest = hasher.digest();
    let bytes = digest.bytes();
    base64_encode(&bytes)
}

/// The `Sec-WebSocket-Accept` value answering the request's
/// `Sec-WebSocket-Key`, or `None` when the request has no usable key (it is
/// then refused with 400 Bad Request).
pub fn handshake_accept(headers: &HeaderMap) -> (r: Option<String>)
    requires
        header_text(header_map_contents(*headers), "sec-websocket-key"@) matches Some(k) ==> k.len()
            < 0x1000_0000_0000_0000,
    ensures
        r is Some <==> header_text(header_map_contents(*headers), "sec-websocket-key"@) is Some,
        r matches Some(a) ==> header_text(header_map_contents(*headers), "sec-websocket-key"@)
            matches Some(k) && a@ == accept_key(k),
{
    proof {
        reveal_strlit("sec-websocket-key");
    }
    match header_text_of(headers, "sec-websocket-key") {
        Some(key) => {
            let key_text = crate::text::string_from_chars(&key);
            proof {
                let m = header_map_contents(*headers);
                let b = m["sec-websocket-key"@][0];
                assert(vstd::utf8::is_ascii_chars(key_text@)) by {
                    assert forall|i: int| 0 <= i < key_text@.len() implies '\0' <= #[trigger] key_text@[i]
                        <= '\u{7f}' by {
                        assert(crate::headers::is_visible_byte(b[i]));
                    }
                }
                vstd::utf8::is_ascii_chars_encode_utf8(key_text@);
                reveal_strlit("258EAFA5-E914-47DA-95CA-C5AB0DC85B11");
                assert(vstd::utf8::is_ascii_chars(WEBSOCKET_GUID@));
                vstd::utf8::is_ascii_chars_encode_utf8(WEBSOCKET_GUID@);
            }
            Some(generate_accept_key(key_text.as_str()))
        },
        None => None,
    }
}

/// The URL of the upstream WebSocket endpoint for a request path:
/// `ws://`, the upstream address, then the path.
pub fn upstream_ws_url(config: &Config, path: &str) -> (r: String)
    ensures
        r@ == "ws://"@ + config.upstream.address@ + path@,
{
    concat_str(concat_str("ws://", config.upstream.address.as_str()).as_str(), path)
}

/// The headers of the `101 Switching Protocols` answer: `Upgrade:
/// websocket`, `Connection: Upgrade` and the accept value.
pub fn upgrade_response_headers(accept: &str) -> (r: Vec<(String, String)>)
    ensures
        r@.len() == 3,
        r@[0].0@ == "Upgrade"@ && r@[0].1@ == "websocket"@,
        r@[1].0@ == "Connection"@ && r@[1].1@ == "Upgrade"@,
        r@[2].0@ == "Sec-WebSocket-Accept"@ && r@[2].1@ == accept@,
{
    let mut r: Vec<(String, String)> = Vec::new();
    r.push(("Upgrade".to_owned(), "websocket".to_owned()));
    r.push(("Connection".to_owned(), "Upgrade".to_owned()));
    r.push(("Sec-WebSocket-Accept".to_owned(), accept.to_owned()));
    r
}

/// The `101 Switching Protocols` answer to an upgrade: no content type, the
/// headers `Upgrade: websocket`, `Connection: Upgrade` and
/// `Sec-WebSocket-Accept`, and an empty body.
pub fn switching_protocols(accept: &str) -> (r: PlainResponse)
    ensures
        r.status == 101,
        r.content_type is None,
        r.body@.len() == 0,
        r.headers@.len() == 3,
        r.headers@[0].0@ == "Upgrade"@ && r.headers@[0].1@ == "websocket"@,
        r.headers@[1].0@ == "Connection"@ && r.headers@[1].1@ == "Upgrade"@,
        r.headers@[2].0@ == "Sec-WebSocket-Accept"@ && r.headers@[2].1@ == accept@,
{
    PlainResponse {
        status: 101,
        content_type: None,
        headers: upgrade_response_headers(accept),
        body: String::new(),
    }
}

/// The accept value answering the request's `Sec-WebSocket-Key`, or, when
/// the request has no usable key, the answer it gets: 400 Bad Request with
/// no body.
pub fn handshake_answer(headers: &HeaderMap) -> (r: Result<String, PlainResponse>)
    requires
        header_text(header_map_contents(*headers), "sec-websocket-key"@) matches Some(k) ==> k.len()
            < 0x1000_0000_0000_0000,
    ensures
        r is Ok <==> header_text(header_map_contents(*headers), "sec-websocket-key"@) is Some,
        r matches Ok(a) ==> header_text(header_map_contents(*headers), "sec-websocket-key"@)
            matches Some(k) && a@ == accept_key(k),
        r matches Err(p) ==> is_empty_response(p, 400),
{
    match handshake_accept(headers) {
        Some(a) => Ok(a),
        None => Err(empty_response(400)),
    }
}

} // verus!
