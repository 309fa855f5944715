//! Decisions of the listening loops: which connection errors are ordinary
//! hang-ups, and where plain-HTTP requests are redirected.

use vstd::prelude::*;
use http::header::HeaderMap;

use crate::config::Config;
use crate::proxy::PlainResponse;
use crate::headers::{header_map_contents, header_text, header_text_of};
use crate::text::{chars_of, concat_str, contains, contains_chars, decimal, decimal_text};

verus! {

/// The error message says the peer went away.
pub open spec fn is_closed_message(msg: Seq<char>) -> bool {
    ||| contains(msg, "connection closed"@)
    ||| contains(msg, "reset by peer"@)
    ||| contains(msg, "broken pipe"@)
    ||| contains(msg, "connection reset"@)
}

/// Whether a connection error (given by its message) is an ordinary hang-up
/// that is not worth logging.
pub fn is_connection_closed_error(msg: &str) -> (r: bool)
    ensures
        r == is_closed_message(msg@),
{
    let m = chars_of(msg);
    contains_chars(&m, &chars_of("connection closed")) || contains_chars(&m, &chars_of("reset by peer"))
        || contains_chars(&m, &chars_of("broken pipe")) || contains_chars(
        &m,
        &chars_of("connection reset"),
    )
}

/// A connection error counts as a hang-up exactly when its message mentions
/// `connection closed`, `reset by peer`, `broken pipe` or `connection
/// reset`.
pub proof fn law_closed_messages(msg: Seq<char>)
    ensures
        is_closed_message(msg) <==> contains(msg, "connection closed"@) || contains(
            msg,
            "reset by peer"@,
        ) || contains(msg, "broken pipe"@) || contains(msg, "connection reset"@),
{
}

/// The host a redirect goes to: the request's `Host` header, else the first
/// TLS domain, else `localhost`.
pub open spec fn redirect_host(config: Config, headers: Map<Seq<char>, Seq<Seq<u8>>>) -> Seq<char> {
    match header_text(headers, "host"@) {
        Some(h) => h,
        None => if config.tls.domains@.len() > 0 {
            config.tls.domains@[0]@
        } else {
            "localhost"@
        },
    }
}

/// `https://` + host + path and query (`/` when the request has none).
pub open spec fn redirect_url(
    config: Config,
    headers: Map<Seq<char>, Seq<Seq<u8>>>,
    path_and_query: Option<Seq<char>>,
) -> Seq<char> {
    "https://"@ + redirect_host(config, headers) + match path_and_query {
        Some(p) => p,
        None => "/"@,
    }
}

/// A redirect keeps the request's host (its `Host` header; without one,
/// the first TLS domain, else `localhost`) and its path and query (`/`
/// when it has none), and only switches the scheme to `https`.
pub proof fn law_redirect_keeps_host_and_path(
    config: Config,
    headers: Map<Seq<char>, Seq<Seq<u8>>>,
    path_and_query: Option<Seq<char>>,
)
    ensures
        header_text(headers, "host"@) matches Some(h) ==> redirect_url(config, headers, path_and_query)
            == "https://"@ + h + path_and_query.unwrap_or("/"@),
        header_text(headers, "host"@) is None && config.tls.domains@.len() > 0 ==> redirect_url(
            config,
            headers,
            path_and_query,
        ) == "https://"@ + config.tls.domains@[0]@ + path_and_query.unwrap_or("/"@),
        header_text(headers, "host"@) is None && config.tls.domains@.len() == 0 ==> redirect_url(
            config,
            headers,
            path_and_query,
        ) == "https://"@ + "localhost"@ + path_and_query.unwrap_or("/"@),
{
}

/// The `Location` of the permanent redirect from plain HTTP to HTTPS.
pub fn redirect_location(config: &Config, headers: &HeaderMap, path_and_query: Option<&str>) -> (r:
    String)
    ensures
        r@ == redirect_url(
            *config,
            header_map_contents(*headers),
            match path_and_query {
                Some(p) => Some(p@),
                None => None,
            },
        ),
{
    proof {
        reveal_strlit("host");
    }
    let host: String = match header_text_of(headers, "host") {
        Some(h) => crate::text::string_from_chars(&h),
        None => if config.tls.domains.len() > 0 {
            config.tls.domains[0].clone()
        } else {
            "localhost".to_owned()
        },
    };
    let path: &str = match path_and_query {
        Some(p) => p,
        None => "/",
    };
    concat_str(concat_str("https://", host.as_str()).as_str(), path)
}

/// Where the plain-HTTP redirect server listens, when it runs: every
/// interface, on the configured HTTP port; it does not run on port 0.
pub fn redirect_listen_addr(config: &Config) -> (r: Option<String>)
    ensures
        r is Some <==> config.server.http_port > 0,
        r matches Some(a) ==> a@ == "0.0.0.0:"@ + decimal(config.server.http_port as nat),
{
    if config.server.http_port > 0 {
        Some(concat_str("0.0.0.0:", decimal_text(config.server.http_port as u64).as_str()))
    } else {
        None
    }
}

/// The ACME account contact: `mailto:` and the configured address, when
/// one is configured.
pub fn acme_contact(config: &Config) -> (r: Option<String>)
    ensures
        r is Some <==> config.tls.email@.len() > 0,
        r matches Some(c) ==> c@ == "mailto:"@ + config.tls.email@,
{
    if config.tls.email.unicode_len() > 0 {
        Some(concat_str("mailto:", config.tls.email.as_str()))
    } else {
        None
    }
}

/// The answer of the plain-HTTP listener: a permanent redirect (301) to
/// the HTTPS address, with `Location` and `Content-Length: 0`, no content
/// type and an empty body.
pub fn redirect_response(config: &Config, headers: &HeaderMap, path_and_query: Option<&str>) -> (r:
    PlainResponse)
    ensures
        r.status == 301,
        r.content_type is None,
        r.body@.len() == 0,
        r.headers@.len() == 2,
        r.headers@[0].0@ == "Location"@,
        r.headers@[0].1@ == redirect_url(
            *config,
            header_map_contents(*headers),
            match path_and_query {
                Some(p) => Some(p@),
                None => None,
            },
        ),
        r.headers@[1].0@ == "Content-Length"@ && r.headers@[1].1@ == "0"@,
{
    let location = redirect_location(config, headers, path_and_query);
    let mut fields: Vec<(String, String)> = Vec::new();
    fields.push(("Location".to_owned(), location));
    fields.push(("Content-Length".to_owned(), "0".to_owned()));
    PlainResponse { status: 301, content_type: None, headers: fields, body: String::new() }
}

} // verus!
