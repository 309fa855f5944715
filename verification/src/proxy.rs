//! Request rewriting done before a request is forwarded upstream, and the
//! small responses the proxy answers with itself.

use std::sync::Arc;
use vstd::prelude::*;
use http::header::HeaderMap;

use crate::config::Config;
use crate::error::ProxyError;
use crate::headers::{
    ascii_chars, has_room, header_value_bytes, is_visible_byte, valid_header_value, header_contains, header_get, header_insert, header_map_contents,
    header_remove, header_value_to_str, known_name, parse_header_value, room_for, visible_value,
};

verus! {

/// Text made only of visible ASCII characters and tabs (an IP address
/// prints as such text).
pub open spec fn is_visible_text(s: Seq<char>) -> bool {
    forall|i: int| 0 <= i < s.len() ==> (' ' <= #[trigger] s[i] <= '~' || s[i] == '\t')
}

/// The hop-by-hop headers, which concern one connection only.
pub open spec fn hop_by_hop_names() -> Set<Seq<char>> {
    set![
        "connection"@,
        "keep-alive"@,
        "proxy-authenticate"@,
        "proxy-authorization"@,
        "te"@,
        "trailer"@,
        "transfer-encoding"@,
    ]
}

/// The bytes of an ASCII text.
pub open spec fn ascii_bytes(s: Seq<char>) -> Seq<u8> {
    s.map_values(|c: char| c as u8)
}

/// The text of a value for `X-Forwarded-For`, `existing` being the value the
/// request already had: that value (or nothing when it is not visible
/// ASCII), a comma and a space, then the client address.
pub open spec fn appended_forwarded_for(existing: Seq<u8>, ip: Seq<char>) -> Seq<char> {
    let prior = if visible_value(existing) { ascii_chars(existing) } else { Seq::<char>::empty() };
    prior + ", "@ + ip
}

/// The headers after the forwarding headers have been added.
pub open spec fn forwarded_headers(
    m: Map<Seq<char>, Seq<Seq<u8>>>,
    ip: Seq<char>,
    tls: bool,
) -> Map<Seq<char>, Seq<Seq<u8>>> {
    let xff = if m.dom().contains("x-forwarded-for"@) {
        appended_forwarded_for(m["x-forwarded-for"@][0], ip)
    } else {
        ip
    };
    let m1 = m.insert("x-forwarded-for"@, seq![ascii_bytes(xff)]);
    let m2 = if m1.dom().contains("x-real-ip"@) {
        m1
    } else {
        m1.insert("x-real-ip"@, seq![ascii_bytes(ip)])
    };
    let proto = if tls { "https"@ } else { "http"@ };
    let m3 = if m2.dom().contains("x-forwarded-proto"@) {
        m2
    } else {
        m2.insert("x-forwarded-proto"@, seq![ascii_bytes(proto)])
    };
    if !m3.dom().contains("x-forwarded-host"@) && m3.dom().contains("host"@) {
        m3.insert("x-forwarded-host"@, seq![m3["host"@][0]])
    } else {
        m3
    }
}

/// Visible ASCII text is a valid header value, byte for byte.
pub proof fn lemma_visible_text_value(t: Seq<char>)
    requires
        is_visible_text(t),
    ensures
        vstd::utf8::encode_utf8(t) == ascii_bytes(t),
        valid_header_value(vstd::utf8::encode_utf8(t)),
{
    assert(vstd::utf8::is_ascii_chars(t));
    vstd::utf8::is_ascii_chars_encode_utf8(t);
    assert(vstd::utf8::encode_utf8(t) =~= ascii_bytes(t));
}

/// The text of visible bytes is visible text.
pub proof fn lemma_visible_bytes_text(b: Seq<u8>)
    requires
        visible_value(b),
    ensures
        is_visible_text(ascii_chars(b)),
{
    assert forall|i: int| 0 <= i < ascii_chars(b).len() implies (' ' <= #[trigger] ascii_chars(
        b,
    )[i] <= '~' || ascii_chars(b)[i] == '\t') by {
        assert(is_visible_byte(b[i]));
    }
}

/// The names the forwarding step writes.
pub open spec fn forwarding_names() -> Set<Seq<char>> {
    set!["x-forwarded-for"@, "x-real-ip"@, "x-forwarded-proto"@, "x-forwarded-host"@]
}

/// Stripping hop-by-hop headers twice is stripping them once.
pub proof fn law_strip_idempotent(m: Map<Seq<char>, Seq<Seq<u8>>>)
    ensures
        m.remove_keys(hop_by_hop_names()).remove_keys(hop_by_hop_names()) == m.remove_keys(
            hop_by_hop_names(),
        ),
{
    assert(m.remove_keys(hop_by_hop_names()).remove_keys(hop_by_hop_names()) =~= m.remove_keys(
        hop_by_hop_names(),
    ));
}

/// Stripping removes every hop-by-hop header and leaves every end-to-end
/// header as it was.
pub proof fn law_strip_keeps_end_to_end(m: Map<Seq<char>, Seq<Seq<u8>>>, name: Seq<char>)
    ensures
        hop_by_hop_names().contains(name) ==> !m.remove_keys(hop_by_hop_names()).dom().contains(
            name,
        ),
        !hop_by_hop_names().contains(name) ==> (m.remove_keys(hop_by_hop_names()).dom().contains(
            name,
        ) == m.dom().contains(name)),
        !hop_by_hop_names().contains(name) && m.dom().contains(name) ==> m.remove_keys(
            hop_by_hop_names(),
        )[name] == m[name],
{
}

/// Stripping removes exactly `Connection`, `Keep-Alive`,
/// `Proxy-Authenticate`, `Proxy-Authorization`, `TE`, `Trailer` and
/// `Transfer-Encoding`; every other header (such as `Authorization`,
/// `Cookie` or `Host`) is kept with all its values.
pub proof fn law_strip_exactly_hop_by_hop(m: Map<Seq<char>, Seq<Seq<u8>>>, name: Seq<char>)
    ensures
        m.remove_keys(hop_by_hop_names()).dom().contains(name) <==> m.dom().contains(name) && name
            != "connection"@ && name != "keep-alive"@ && name != "proxy-authenticate"@ && name
            != "proxy-authorization"@ && name != "te"@ && name != "trailer"@ && name
            != "transfer-encoding"@,
        m.remove_keys(hop_by_hop_names()).dom().contains(name) ==> m.remove_keys(
            hop_by_hop_names(),
        )[name] == m[name],
{
}

/// The forwarding step leaves every other header of the request as it was.
pub proof fn law_forwarding_keeps_other_headers(
    m: Map<Seq<char>, Seq<Seq<u8>>>,
    ip: Seq<char>,
    tls: bool,
    name: Seq<char>,
)
    requires
        !forwarding_names().contains(name),
    ensures
        forwarded_headers(m, ip, tls).dom().contains(name) == m.dom().contains(name),
        m.dom().contains(name) ==> forwarded_headers(m, ip, tls)[name] == m[name],
{
}

/// The forwarding header names differ in length, hence from each other.
proof fn lemma_forwarding_name_lengths()
    ensures
        "x-forwarded-for"@.len() == 15,
        "x-real-ip"@.len() == 9,
        "x-forwarded-proto"@.len() == 17,
        "x-forwarded-host"@.len() == 16,
        "host"@.len() == 4,
{
    reveal_strlit("x-forwarded-for");
    reveal_strlit("x-real-ip");
    reveal_strlit("x-forwarded-proto");
    reveal_strlit("x-forwarded-host");
    reveal_strlit("host");
}

/// `X-Real-IP`, `X-Forwarded-Proto` and `X-Forwarded-Host` set by an earlier
/// proxy are kept; the first two are added when absent.
pub proof fn law_forwarding_keeps_existing(m: Map<Seq<char>, Seq<Seq<u8>>>, ip: Seq<char>, tls: bool)
    ensures
        m.dom().contains("x-real-ip"@) ==> forwarded_headers(m, ip, tls)["x-real-ip"@]
            == m["x-real-ip"@],
        !m.dom().contains("x-real-ip"@) ==> forwarded_headers(m, ip, tls)["x-real-ip"@] == seq![
            ascii_bytes(ip),
        ],
        m.dom().contains("x-forwarded-proto"@) ==> forwarded_headers(m, ip, tls)["x-forwarded-proto"@]
            == m["x-forwarded-proto"@],
        !m.dom().contains("x-forwarded-proto"@) ==> forwarded_headers(m, ip, tls)[
            "x-forwarded-proto"@] == seq![ascii_bytes(if tls { "https"@ } else { "http"@ })],
        m.dom().contains("x-forwarded-host"@) ==> forwarded_headers(m, ip, tls)["x-forwarded-host"@]
            == m["x-forwarded-host"@],
{
    lemma_forwarding_name_lengths();
}

/// Each proxy appends the client it saw to `X-Forwarded-For`: a request
/// that passes two proxies, from `first` and then from `second`, carries
/// `first, second`.
pub proof fn law_forwarded_for_chain(
    m: Map<Seq<char>, Seq<Seq<u8>>>,
    first: Seq<char>,
    second: Seq<char>,
    tls: bool,
)
    requires
        !m.dom().contains("x-forwarded-for"@),
        is_visible_text(first),
    ensures
        forwarded_headers(m, first, tls)["x-forwarded-for"@] == seq![ascii_bytes(first)],
        forwarded_headers(forwarded_headers(m, first, tls), second, tls)["x-forwarded-for"@]
            == seq![ascii_bytes(first + ", "@ + second)],
{
    lemma_forwarding_name_lengths();
    let b = ascii_bytes(first);
    assert(visible_value(b)) by {
        assert forall|i: int| 0 <= i < b.len() implies #[trigger] is_visible_byte(b[i]) by {
            assert(' ' <= first[i] <= '~' || first[i] == '\t');
        }
    }
    assert(ascii_chars(b) =~= first) by {
        assert forall|i: int| 0 <= i < first.len() implies #[trigger] ascii_chars(b)[i] == first[i] by {
            assert(' ' <= first[i] <= '~' || first[i] == '\t');
            assert((first[i] as u8) as char == first[i]);
        }
    }
}

/// `X-Forwarded-Host` is taken from the first `Host` value when the request
/// has a `Host` header and no `X-Forwarded-Host`; without either it stays
/// absent.
pub proof fn law_forwarded_host(m: Map<Seq<char>, Seq<Seq<u8>>>, ip: Seq<char>, tls: bool)
    ensures
        !m.dom().contains("x-forwarded-host"@) && m.dom().contains("host"@) ==> forwarded_headers(
            m,
            ip,
            tls,
        )["x-forwarded-host"@] == seq![m["host"@][0]],
        !m.dom().contains("x-forwarded-host"@) && !m.dom().contains("host"@) ==> !forwarded_headers(
            m,
            ip,
            tls,
        ).dom().contains("x-forwarded-host"@),
        forwarded_headers(m, ip, tls).dom().contains("host"@) == m.dom().contains("host"@),
{
    lemma_forwarding_name_lengths();
}

/// The hop-by-hop names are none of the forwarding names.
proof fn lemma_hop_names_differ()
    ensures
        !hop_by_hop_names().contains("x-forwarded-for"@),
        !hop_by_hop_names().contains("x-real-ip"@),
        !hop_by_hop_names().contains("x-forwarded-proto"@),
        !hop_by_hop_names().contains("x-forwarded-host"@),
{
    reveal_strlit("x-forwarded-for");
    reveal_strlit("x-real-ip");
    reveal_strlit("x-forwarded-proto");
    reveal_strlit("x-forwarded-host");
    reveal_strlit("connection");
    reveal_strlit("keep-alive");
    reveal_strlit("proxy-authenticate");
    reveal_strlit("proxy-authorization");
    reveal_strlit("te");
    reveal_strlit("trailer");
    reveal_strlit("transfer-encoding");
    assert("x-forwarded-for"@.len() == 15);
    assert("x-real-ip"@.len() == 9);
    assert("x-forwarded-proto"@.len() == 17);
    assert("x-forwarded-host"@.len() == 16);
    assert("connection"@.len() == 10);
    assert("keep-alive"@.len() == 10);
    assert("proxy-authenticate"@.len() == 18);
    assert("proxy-authorization"@.len() == 19);
    assert("te"@.len() == 2);
    assert("trailer"@.len() == 7);
    assert("transfer-encoding"@.len() == 17);
    assert("x-forwarded-proto"@[0] != "transfer-encoding"@[0]);
}

/// What reaches the upstream (the forwarding headers added, then the
/// hop-by-hop headers removed) carries no hop-by-hop header, always carries
/// `X-Forwarded-For`, `X-Real-IP` and `X-Forwarded-Proto`, and the chain in
/// `X-Forwarded-For` is the one the forwarding step wrote.
pub proof fn law_request_to_upstream(m: Map<Seq<char>, Seq<Seq<u8>>>, ip: Seq<char>, tls: bool)
    ensures
        forall|h: Seq<char>|
            hop_by_hop_names().contains(h) ==> !(#[trigger] forwarded_headers(m, ip, tls).remove_keys(
                hop_by_hop_names(),
            ).dom().contains(h)),
        forwarded_headers(m, ip, tls).remove_keys(hop_by_hop_names()).dom().contains("x-forwarded-for"@),
        forwarded_headers(m, ip, tls).remove_keys(hop_by_hop_names()).dom().contains("x-real-ip"@),
        forwarded_headers(m, ip, tls).remove_keys(hop_by_hop_names()).dom().contains("x-forwarded-proto"@),
        forwarded_headers(m, ip, tls).remove_keys(hop_by_hop_names())["x-forwarded-for"@]
            == forwarded_headers(m, ip, tls)["x-forwarded-for"@],
{
    lemma_hop_names_differ();
    lemma_forwarding_name_lengths();
}

/// Forwards requests to the upstream server.
pub struct ProxyHandler {
    config: Arc<Config>,
}

/// A response the proxy builds itself: a status, an optional content type,
/// further headers in order, and a text body.
#[derive(Debug, Clone)]
pub struct PlainResponse {
    pub status: u16,
    pub content_type: Option<String>,
    pub headers: Vec<(String, String)>,
    pub body: String,
}

impl ProxyHandler {
    pub closed spec fn tls_enabled(&self) -> bool {
        self.config.tls.enabled
    }

    pub closed spec fn config(&self) -> Config {
        *self.config
    }

    /// A handler for the given configuration.
    pub fn new(config: Arc<Config>) -> (r: Result<Self, ProxyError>)
        ensures
            r matches Ok(h) && h.config() == *config,
    {
        Ok(Self { config })
    }

    /// Adds `X-Forwarded-For` (appending to an existing chain),
    /// `X-Real-IP` and `X-Forwarded-Proto` (only when absent), and
    /// `X-Forwarded-Host` (from `Host`, only when absent).
    pub fn add_forwarding_headers(&self, headers: &mut HeaderMap, client_ip: &str)
        requires
            has_room(header_map_contents(*old(headers)), 4),
            is_visible_text(client_ip@),
        ensures
            header_map_contents(*final(headers)) == forwarded_headers(
                header_map_contents(*old(headers)),
                client_ip@,
                self.tls_enabled(),
            ),
    {
        let ghost m = header_map_contents(*headers);
        proof {
            reveal_strlit("x-forwarded-for");
            reveal_strlit("x-real-ip");
            reveal_strlit("x-forwarded-proto");
            reveal_strlit("x-forwarded-host");
            reveal_strlit("host");
            reveal_strlit(", ");
            reveal_strlit("");
            reveal_strlit("https");
            reveal_strlit("http");
        }
        let xff_name = known_name("x-forwarded-for");
        let xff: String = match header_get(headers, &xff_name) {
            Some(existing) => {
                let prior: &str = match header_value_to_str(&existing) {
                    Some(t) => {
                        proof {
                            lemma_visible_bytes_text(header_value_bytes(existing));
                        }
                        t
                    },
                    None => "",
                };
                let mut s = prior.to_owned();
                s.append(", ");
                s.append(client_ip);
                proof {
                    assert(prior@ == if visible_value(m["x-forwarded-for"@][0]) {
                        ascii_chars(m["x-forwarded-for"@][0])
                    } else {
                        Seq::<char>::empty()
                    });
                    assert(s@ =~= appended_forwarded_for(m["x-forwarded-for"@][0], client_ip@));
                    assert(is_visible_text(s@));
                }
                s
            },
            None => client_ip.to_owned(),
        };
        let ghost xff_text = if m.dom().contains("x-forwarded-for"@) {
            appended_forwarded_for(m["x-forwarded-for"@][0], client_ip@)
        } else {
            client_ip@
        };
        proof {
            assert(xff@ == xff_text);
            lemma_visible_text_value(xff@);
            lemma_visible_text_value(client_ip@);
        }
        header_insert(headers, xff_name, parse_header_value(xff.as_str()).unwrap());
        let ghost m1 = m.insert("x-forwarded-for"@, seq![ascii_bytes(xff_text)]);
        assert(header_map_contents(*headers) == m1);
        let real_name = known_name("x-real-ip");
        if !header_contains(headers, &real_name) {
            header_insert(headers, real_name, parse_header_value(client_ip).unwrap());
        }
        let ghost m2 = if m1.dom().contains("x-real-ip"@) {
            m1
        } else {
            m1.insert("x-real-ip"@, seq![ascii_bytes(client_ip@)])
        };
        assert(header_map_contents(*headers) == m2);
        let proto_name = known_name("x-forwarded-proto");
        let ghost proto_text = if self.tls_enabled() { "https"@ } else { "http"@ };
        if !header_contains(headers, &proto_name) {
            let proto = if self.config.tls.enabled {
                "https"
            } else {
                "http"
            };
            proof {
                lemma_visible_text_value(proto@);
            }
            header_insert(headers, proto_name, parse_header_value(proto).unwrap());
        }
        let ghost m3 = if m2.dom().contains("x-forwarded-proto"@) {
            m2
        } else {
            m2.insert("x-forwarded-proto"@, seq![ascii_bytes(proto_text)])
        };
        assert(header_map_contents(*headers) == m3);
        let fwd_host_name = known_name("x-forwarded-host");
        if !header_contains(headers, &fwd_host_name) {
            let host_name = known_name("host");
            match header_get(headers, &host_name) {
                Some(host) => {
                    header_insert(headers, fwd_host_name, host);
                },
                None => {},
            }
        }
    }

    /// Rewrites a request's headers before it goes upstream: adds the
    /// forwarding headers, then removes the hop-by-hop headers. Nothing is
    /// changed, and `false` returned, when the map has no room for the four
    /// forwarding names.
    pub fn prepare_request(&self, headers: &mut HeaderMap, client_ip: &str) -> (r: bool)
        requires
            is_visible_text(client_ip@),
        ensures
            r == has_room(header_map_contents(*old(headers)), 4),
            r ==> header_map_contents(*final(headers)) == forwarded_headers(
                header_map_contents(*old(headers)),
                client_ip@,
                self.tls_enabled(),
            ).remove_keys(hop_by_hop_names()),
            !r ==> header_map_contents(*final(headers)) == header_map_contents(*old(headers)),
    {
        if !room_for(headers, 4) {
            return false;
        }
        self.add_forwarding_headers(headers, client_ip);
        self.strip_hop_by_hop_headers(headers);
        true
    }

    /// Removes the hop-by-hop headers.
    pub fn strip_hop_by_hop_headers(&self, headers: &mut HeaderMap)
        ensures
            header_map_contents(*final(headers)) == header_map_contents(*old(headers)).remove_keys(
                hop_by_hop_names(),
            ),
    {
        let ghost m = header_map_contents(*headers);
        proof {
            reveal_strlit("connection");
            reveal_strlit("keep-alive");
            reveal_strlit("proxy-authenticate");
            reveal_strlit("proxy-authorization");
            reveal_strlit("te");
            reveal_strlit("trailer");
            reveal_strlit("transfer-encoding");
        }
        header_remove(headers, &known_name("connection"));
        header_remove(headers, &known_name("keep-alive"));
        header_remove(headers, &known_name("proxy-authenticate"));
        header_remove(headers, &known_name("proxy-authorization"));
        header_remove(headers, &known_name("te"));
        header_remove(headers, &known_name("trailer"));
        header_remove(headers, &known_name("transfer-encoding"));
        proof {
            assert(header_map_contents(*headers) =~= m.remove_keys(hop_by_hop_names()));
        }
    }
}

/// A response with this status, no content type and an empty body.
pub open spec fn is_empty_response(r: PlainResponse, status: u16) -> bool {
    r.status == status && r.content_type is None && r.headers@.len() == 0 && r.body@.len() == 0
}

/// A plain-text response with this status and body.
pub open spec fn is_text_response(r: PlainResponse, status: u16, text: Seq<char>) -> bool {
    &&& r.status == status
    &&& r.content_type matches Some(ct) && ct@ == "text/plain; charset=utf-8"@
    &&& r.headers@.len() == 0
    &&& r.body@ == text
}

/// A response with a status and no body.
pub fn empty_response(status: u16) -> (r: PlainResponse)
    ensures
        is_empty_response(r, status),
{
    PlainResponse { status, content_type: None, headers: Vec::new(), body: String::new() }
}

/// A plain-text response.
pub fn text_response(status: u16, text: &str) -> (r: PlainResponse)
    ensures
        is_text_response(r, status, text@),
{
    PlainResponse {
        status,
        content_type: Some("text/plain; charset=utf-8".to_owned()),
        headers: Vec::new(),
        body: text.to_owned(),
    }
}

} // verus!
