//! HTTP header maps of the `http` crate, as seen by the proxy's logic.
//!
//! A `HeaderMap` is modelled by what it holds: for each (lower-case) header
//! name, the list of its values in order.

use vstd::prelude::*;
use http::header::{HeaderMap, HeaderName, HeaderValue};
use crate::text::{ascii_lower, is_ascii_upper, lower_char};

verus! {

#[verifier::external_type_specification]
#[verifier::external_body]
#[verifier::reject_recursive_types(T)]
pub struct ExHeaderMap<T>(HeaderMap<T>);

#[verifier::external_type_specification]
#[verifier::external_body]
pub struct ExHeaderName(HeaderName);

#[verifier::external_type_specification]
#[verifier::external_body]
pub struct ExHeaderValue(HeaderValue);

/// What a header map holds: for each header name, its values in order.
pub uninterp spec fn header_map_contents(m: HeaderMap) -> Map<Seq<char>, Seq<Seq<u8>>>;

/// The text of a header name (always lower case).
pub uninterp spec fn header_name_text(n: HeaderName) -> Seq<char>;

/// The bytes of a header value.
pub uninterp spec fn header_value_bytes(v: HeaderValue) -> Seq<u8>;

/// Number of distinct names under which every insertion is sure to succeed.
pub const MAX_HEADER_NAMES: usize = 6000;

/// A token character of RFC 7230 (`tchar`).
pub open spec fn is_tchar(c: char) -> bool {
    ||| ('a' <= c <= 'z')
    ||| ('A' <= c <= 'Z')
    ||| ('0' <= c <= '9')
    ||| c == '!' || c == '#' || c == '$' || c == '%' || c == '&' || c == '\''
    ||| c == '*' || c == '+' || c == '-' || c == '.' || c == '^' || c == '_'
    ||| c == '`' || c == '|' || c == '~'
}

/// Text accepted by `HeaderName::from_bytes`: 1 to 65535 token characters.
pub open spec fn valid_header_name(s: Seq<char>) -> bool {
    &&& 1 <= s.len() <= 65535
    &&& forall|i: int| 0 <= i < s.len() ==> #[trigger] is_tchar(s[i])
}

/// A byte accepted in a header value: visible ASCII, tab, or any byte >= 0x80.
pub open spec fn is_value_byte(b: u8) -> bool {
    (b >= 32 && b != 127) || b == 9
}

/// A byte of a header value that `to_str` accepts: visible ASCII or tab.
pub open spec fn is_visible_byte(b: u8) -> bool {
    (b >= 32 && b < 127) || b == 9
}

pub open spec fn valid_header_value(bytes: Seq<u8>) -> bool {
    forall|i: int| 0 <= i < bytes.len() ==> #[trigger] is_value_byte(bytes[i])
}

pub open spec fn visible_value(bytes: Seq<u8>) -> bool {
    forall|i: int| 0 <= i < bytes.len() ==> #[trigger] is_visible_byte(bytes[i])
}

/// The characters of a byte string made only of ASCII bytes.
pub open spec fn ascii_chars(bytes: Seq<u8>) -> Seq<char> {
    bytes.map_values(|b: u8| b as char)
}

/// Finitely many names, with room for `extra` more.
pub open spec fn has_room(m: Map<Seq<char>, Seq<Seq<u8>>>, extra: nat) -> bool {
    m.dom().finite() && m.dom().len() + extra <= MAX_HEADER_NAMES
}

/// `HeaderName::from_str`: accepts 1 to 65535 token characters and lower-cases them.
#[verifier::external_body]
pub(crate) fn parse_header_name(s: &str) -> (r: Option<HeaderName>)
    ensures
        r is Some <==> valid_header_name(s@),
        r matches Some(n) ==> header_name_text(n) == ascii_lower(s@),
{
    s.parse::<HeaderName>().ok()
}

/// `HeaderValue::from_str`: accepts the text when every byte of its UTF-8
/// encoding is a header value byte, and keeps those bytes.
#[verifier::external_body]
pub(crate) fn parse_header_value(s: &str) -> (r: Option<HeaderValue>)
    ensures
        r is Some <==> valid_header_value(vstd::utf8::encode_utf8(s@)),
        r matches Some(v) ==> header_value_bytes(v) == vstd::utf8::encode_utf8(s@),
{
    s.parse::<HeaderValue>().ok()
}

/// `HeaderValue::to_str`: succeeds when every byte is visible ASCII or tab.
#[verifier::external_body]
pub(crate) fn header_value_to_str(v: &HeaderValue) -> (r: Option<&str>)
    ensures
        r is Some <==> visible_value(header_value_bytes(*v)),
        r matches Some(t) ==> t@ == ascii_chars(header_value_bytes(*v)),
{
    v.to_str().ok()
}

/// `HeaderMap::get`: the first value under a name, if any (cloned).
#[verifier::external_body]
pub(crate) fn header_get(m: &HeaderMap, name: &HeaderName) -> (r: Option<HeaderValue>)
    ensures
        r is Some <==> header_map_contents(*m).dom().contains(header_name_text(*name)),
        r matches Some(v) ==> header_map_contents(*m)[header_name_text(*name)].len() > 0,
        r matches Some(v) ==> header_value_bytes(v) == header_map_contents(*m)[header_name_text(
            *name,
        )][0],
{
    m.get(name).cloned()
}

/// `HeaderMap::contains_key`.
#[verifier::external_body]
pub(crate) fn header_contains(m: &HeaderMap, name: &HeaderName) -> (r: bool)
    ensures
        r == header_map_contents(*m).dom().contains(header_name_text(*name)),
{
    m.contains_key(name)
}

/// `HeaderMap::insert`: the value replaces every value held under the name.
/// The map only refuses an insertion (by panicking) when it has grown to
/// thousands of names; below `MAX_HEADER_NAMES` it never does.
#[verifier::external_body]
pub(crate) fn header_insert(m: &mut HeaderMap, name: HeaderName, value: HeaderValue)
    requires
        has_room(header_map_contents(*old(m)), 1),
    ensures
        header_map_contents(*final(m)) == header_map_contents(*old(m)).insert(
            header_name_text(name),
            seq![header_value_bytes(value)],
        ),
{
    m.insert(name, value);
}

/// `HeaderMap::remove`: drops every value held under the name.
#[verifier::external_body]
pub(crate) fn header_remove(m: &mut HeaderMap, name: &HeaderName)
    ensures
        header_map_contents(*final(m)) == header_map_contents(*old(m)).remove(
            header_name_text(*name),
        ),
{
    m.remove(name);
}

/// The number of names in a map, when it holds finitely many.
pub open spec fn name_count(m: Map<Seq<char>, Seq<Seq<u8>>>) -> Option<nat> {
    if m.dom().finite() {
        Some(m.dom().len())
    } else {
        None
    }
}

/// `HeaderMap::keys_len`: the number of distinct names in the map (each
/// entry of the map is one name with its values); the map holds finitely
/// many names, `r` of them.
#[verifier::external_body]
pub(crate) fn header_names_len(m: &HeaderMap) -> (r: usize)
    ensures
        name_count(header_map_contents(*m)) == Some(r as nat),
{
    m.keys_len()
}

/// Whether the map has room for `extra` more names.
pub fn room_for(headers: &HeaderMap, extra: usize) -> (r: bool)
    ensures
        r == has_room(header_map_contents(*headers), extra as nat),
{
    let n = header_names_len(headers);
    if extra > MAX_HEADER_NAMES {
        false
    } else {
        n <= MAX_HEADER_NAMES - extra
    }
}

/// A header name given as lower-case token text.
pub fn known_name(s: &str) -> (r: HeaderName)
    requires
        valid_header_name(s@),
        forall|i: int| 0 <= i < s@.len() ==> !is_ascii_upper(#[trigger] s@[i]),
    ensures
        header_name_text(r) == s@,
{
    assert(ascii_lower(s@) =~= s@);
    parse_header_name(s).unwrap()
}

/// The text of the first value under `name` when it is visible ASCII.
pub open spec fn header_text(m: Map<Seq<char>, Seq<Seq<u8>>>, name: Seq<char>) -> Option<Seq<char>> {
    if m.dom().contains(name) && visible_value(m[name][0]) {
        Some(ascii_chars(m[name][0]))
    } else {
        None
    }
}

/// The text of the first value under a (lower-case) header name, when it is
/// visible ASCII.
pub fn header_text_of(headers: &HeaderMap, name: &str) -> (r: Option<Vec<char>>)
    requires
        valid_header_name(name@),
        forall|i: int| 0 <= i < name@.len() ==> !is_ascii_upper(#[trigger] name@[i]),
    ensures
        r matches Some(t) ==> header_text(header_map_contents(*headers), name@) == Some(t@),
        r is None ==> header_text(header_map_contents(*headers), name@) is None,
{
    match header_get(headers, &known_name(name)) {
        Some(v) => match header_value_to_str(&v) {
            Some(t) => Some(crate::text::chars_of(t)),
            None => None,
        },
        None => None,
    }
}

} // verus!
