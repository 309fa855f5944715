//! Errors of the proxy.

use vstd::prelude::*;

use crate::text::concat_str;

verus! {

/// What can go wrong while configuring the proxy or serving a request.
///
/// Errors raised by the I/O layer, the HTTP types and the HTTP server keep
/// the text of the underlying error.
#[derive(Debug, Clone, PartialEq, Eq)]
pub enum ProxyError {
    /// Configuration error.
    Config(String),
    /// An I/O error, by its text.
    Io(String),
    /// An error of the HTTP types, by its text.
    Http(String),
    /// An error of the HTTP server, by its text.
    Hyper(String),
    /// TLS error.
    Tls(String),
    /// The upstream could not be reached.
    UpstreamConnection(String),
    /// The upstream did not answer in time.
    UpstreamTimeout,
    /// WebSocket error.
    WebSocket(String),
    /// The client sent too many requests.
    RateLimited,
    /// The path is blocked.
    PathBlocked(String),
}

/// The message of an error: a fixed label, then the error's text where it
/// carries one.
pub open spec fn error_message(e: ProxyError) -> Seq<char> {
    match e {
        ProxyError::Config(m) => "Configuration error: "@ + m@,
        ProxyError::Io(m) => "IO error: "@ + m@,
        ProxyError::Http(m) => "HTTP error: "@ + m@,
        ProxyError::Hyper(m) => "Hyper error: "@ + m@,
        ProxyError::Tls(m) => "TLS error: "@ + m@,
        ProxyError::UpstreamConnection(m) => "Upstream connection failed: "@ + m@,
        ProxyError::UpstreamTimeout => "Upstream timeout"@,
        ProxyError::WebSocket(m) => "WebSocket error: "@ + m@,
        ProxyError::RateLimited => "Rate limited"@,
        ProxyError::PathBlocked(m) => "Path blocked: "@ + m@,
    }
}

impl ProxyError {
    /// The message shown for this error.
    pub fn message(&self) -> (r: String)
        ensures
            r@ == error_message(*self),
    {
        match self {
            ProxyError::Config(m) => concat_str("Configuration error: ", m.as_str()),
            ProxyError::Io(m) => concat_str("IO error: ", m.as_str()),
            ProxyError::Http(m) => concat_str("HTTP error: ", m.as_str()),
            ProxyError::Hyper(m) => concat_str("Hyper error: ", m.as_str()),
            ProxyError::Tls(m) => concat_str("TLS error: ", m.as_str()),
            ProxyError::UpstreamConnection(m) => concat_str("Upstream connection failed: ", m.as_str()),
            ProxyError::UpstreamTimeout => "Upstream timeout".to_owned(),
            ProxyError::WebSocket(m) => concat_str("WebSocket error: ", m.as_str()),
            ProxyError::RateLimited => "Rate limited".to_owned(),
            ProxyError::PathBlocked(m) => concat_str("Path blocked: ", m.as_str()),
        }
    }
}

} // verus!
