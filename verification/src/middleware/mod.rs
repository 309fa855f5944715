//! The request pipeline: rate limiting, path filtering, WebSocket routing,
//! caching and security headers.

pub mod cache;
pub mod filter;
pub mod rate_limit;
pub mod security;

use std::sync::Arc;
use vstd::prelude::*;
use http::header::HeaderMap;

use crate::config::Config;
use crate::globs::globset_matches;
use crate::proxy::{empty_response, is_empty_response, is_text_response, text_response, PlainResponse};
use crate::headers::{has_room, header_map_contents, room_for, MAX_HEADER_NAMES};
use crate::text::{chars_of, ends_with, ends_with_chars, starts_with, starts_with_chars, chars_eq};
use crate::websocket::{is_upgrade_request, is_websocket_upgrade};
use cache::CacheMiddleware;
use filter::FilterMiddleware;
use rate_limit::RateLimitMiddleware;
use security::{secured_headers, SecurityMiddleware};

verus! {

/// A WebSocket path pattern: `prefix/*` and `prefix*` match every path
/// starting with `prefix`; any other pattern matches only itself.
pub open spec fn ws_pattern_matches(pattern: Seq<char>, path: Seq<char>) -> bool {
    if ends_with(pattern, "/*"@) {
        starts_with(path, pattern.take(pattern.len() - 2))
    } else if ends_with(pattern, "*"@) {
        starts_with(path, pattern.take(pattern.len() - 1))
    } else {
        path == pattern
    }
}

/// Some pattern of the list matches the path.
pub open spec fn ws_path_matches(patterns: Seq<Seq<char>>, path: Seq<char>) -> bool {
    exists|i: int| 0 <= i < patterns.len() && #[trigger] ws_pattern_matches(patterns[i], path)
}

/// A WebSocket path pattern with no trailing `*` matches that path only;
/// one ending in `/*` or `*` matches every path that starts with what comes
/// before.
pub proof fn law_ws_pattern(pattern: Seq<char>, path: Seq<char>)
    ensures
        !(pattern.len() > 0 && pattern.last() == '*') ==> (ws_pattern_matches(pattern, path) <==> path
            == pattern),
        pattern.len() >= 2 && pattern[pattern.len() - 2] == '/' && pattern.last() == '*' ==> (
        ws_pattern_matches(pattern, path) <==> path.len() >= pattern.len() - 2 && path.take(
            pattern.len() - 2,
        ) == pattern.take(pattern.len() - 2)),
        pattern.len() >= 1 && pattern.last() == '*' && !(pattern.len() >= 2 && pattern[pattern.len()
            - 2] == '/') ==> (ws_pattern_matches(pattern, path) <==> path.len() >= pattern.len() - 1
            && path.take(pattern.len() - 1) == pattern.take(pattern.len() - 1)),
{
    reveal_strlit("/*");
    reveal_strlit("*");
    if pattern.len() >= 2 {
        assert(ends_with(pattern, "/*"@) <==> (pattern[pattern.len() - 2] == '/' && pattern.last() == '*')) by {
            if pattern[pattern.len() - 2] == '/' && pattern.last() == '*' {
                assert(pattern.skip(pattern.len() - 2) =~= "/*"@);
            }
            if ends_with(pattern, "/*"@) {
                assert(pattern.skip(pattern.len() - 2)[0] == pattern[pattern.len() - 2]);
                assert(pattern.skip(pattern.len() - 2)[1] == pattern[pattern.len() - 1]);
            }
        }
    }
    if pattern.len() >= 1 {
        assert(ends_with(pattern, "*"@) <==> pattern.last() == '*') by {
            if pattern.last() == '*' {
                assert(pattern.skip(pattern.len() - 1) =~= "*"@);
            }
            if ends_with(pattern, "*"@) {
                assert(pattern.skip(pattern.len() - 1)[0] == pattern[pattern.len() - 1]);
            }
        }
    }
}

/// What to do with a request before it reaches the upstream.
#[derive(Debug, Clone, Copy, PartialEq, Eq)]
pub enum Route {
    /// Answer 429 "Rate limit exceeded".
    RateLimited,
    /// Answer 404 with no body.
    Blocked,
    /// Hand the connection to the WebSocket proxy.
    WebSocket,
    /// Forward upstream; first look in the cache when `try_cache` holds.
    Forward { try_cache: bool },
}

/// Whether one pattern matches the path.
pub fn ws_pattern_matches_exec(pattern: &str, path: &str) -> (r: bool)
    ensures
        r == ws_pattern_matches(pattern@, path@),
{
    proof {
        reveal_strlit("/*");
        reveal_strlit("*");
    }
    let p = chars_of(pattern);
    let s = chars_of(path);
    if ends_with_chars(&p, &chars_of("/*")) {
        let mut prefix: Vec<char> = Vec::new();
        let mut i: usize = 0;
        while i < p.len() - 2
            invariant
                p@.len() >= 2,
                i <= p@.len() - 2,
                prefix@ == p@.take(i as int),
            decreases p@.len() - 2 - i,
        {
            prefix.push(p[i]);
            i = i + 1;
            proof {
                assert(prefix@ =~= p@.take(i as int));
            }
        }
        starts_with_chars(&s, &prefix)
    } else if ends_with_chars(&p, &chars_of("*")) {
        let mut prefix: Vec<char> = Vec::new();
        let mut i: usize = 0;
        while i < p.len() - 1
            invariant
                p@.len() >= 1,
                i <= p@.len() - 1,
                prefix@ == p@.take(i as int),
            decreases p@.len() - 1 - i,
        {
            prefix.push(p[i]);
            i = i + 1;
            proof {
                assert(prefix@ =~= p@.take(i as int));
            }
        }
        starts_with_chars(&s, &prefix)
    } else {
        chars_eq(&s, &p)
    }
}

/// Whether some pattern of the list matches the path.
pub fn ws_path_matches_exec(patterns: &Vec<String>, path: &str) -> (r: bool)
    ensures
        r == ws_path_matches(patterns@.map_values(|p: String| p@), path@),
{
    let ghost texts = patterns@.map_values(|p: String| p@);
    let mut i: usize = 0;
    while i < patterns.len()
        invariant
            i <= patterns@.len(),
            texts == patterns@.map_values(|p: String| p@),
            forall|j: int| 0 <= j < i ==> !ws_pattern_matches(#[trigger] texts[j], path@),
        decreases patterns@.len() - i,
    {
        if ws_pattern_matches_exec(patterns[i].as_str(), path) {
            assert(ws_pattern_matches(texts[i as int], path@));
            return true;
        }
        i = i + 1;
    }
    false
}

/// The answer to a request that is not forwarded: 429 "Rate limit
/// exceeded" when rate limited, 404 with no body when blocked; none for a
/// request that goes on (to the WebSocket proxy or the upstream).
pub fn refusal(route: Route) -> (r: Option<PlainResponse>)
    ensures
        route == Route::RateLimited ==> (r matches Some(p) && is_text_response(
            p,
            429,
            "Rate limit exceeded"@,
        )),
        route == Route::Blocked ==> (r matches Some(p) && is_empty_response(p, 404)),
        (route is WebSocket || route is Forward) ==> r is None,
{
    match route {
        Route::RateLimited => Some(text_response(429, "Rate limit exceeded")),
        Route::Blocked => Some(empty_response(404)),
        _ => None,
    }
}

/// The answer when the WebSocket proxy fails: 502 with no body.
pub fn websocket_failure() -> (r: PlainResponse)
    ensures
        is_empty_response(r, 502),
{
    empty_response(502)
}

/// The answer when the upstream cannot be reached: 502 "Upstream error".
pub fn upstream_failure() -> (r: PlainResponse)
    ensures
        is_text_response(r, 502, "Upstream error"@),
{
    text_response(502, "Upstream error")
}

/// A request the rate limiter refuses is answered before anything else is
/// looked at: its path, method and headers do not matter.
pub proof fn law_rate_limit_first(
    stack: MiddlewareStack,
    method: Seq<char>,
    path: Seq<char>,
    headers: Map<Seq<char>, Seq<Seq<u8>>>,
)
    requires
        stack.config().rate_limit.enabled,
    ensures
        stack.route_for(false, method, path, headers) == Route::RateLimited,
{
}

/// With rate limiting off, the limiter's answer changes nothing.
pub proof fn law_rate_limit_off(
    stack: MiddlewareStack,
    allowed: bool,
    method: Seq<char>,
    path: Seq<char>,
    headers: Map<Seq<char>, Seq<Seq<u8>>>,
)
    requires
        !stack.config().rate_limit.enabled,
    ensures
        stack.route_for(allowed, method, path, headers) == stack.route_for(true, method, path, headers),
        stack.route_for(allowed, method, path, headers) != Route::RateLimited,
{
}

/// A blocked path never reaches the WebSocket proxy or the upstream,
/// whatever the method and headers, once the rate limiter let it through.
pub proof fn law_blocked_never_forwarded(
    stack: MiddlewareStack,
    method: Seq<char>,
    path: Seq<char>,
    headers: Map<Seq<char>, Seq<Seq<u8>>>,
)
    requires
        stack.config().filter.enabled,
        stack.filter().globs() matches Some(g) && globset_matches(g, path),
    ensures
        stack.route_for(true, method, path, headers) == Route::Blocked,
{
}

/// The cache is consulted only when it is enabled, and only for GET and
/// HEAD requests.
pub proof fn law_cache_only_get_head(
    stack: MiddlewareStack,
    allowed: bool,
    method: Seq<char>,
    path: Seq<char>,
    headers: Map<Seq<char>, Seq<Seq<u8>>>,
)
    requires
        stack.route_for(allowed, method, path, headers) == (Route::Forward { try_cache: true }),
    ensures
        stack.config().cache.enabled,
        method == "GET"@ || method == "HEAD"@,
{
}

/// A request that is not an upgrade is never handed to the WebSocket proxy.
pub proof fn law_websocket_needs_upgrade(
    stack: MiddlewareStack,
    allowed: bool,
    method: Seq<char>,
    path: Seq<char>,
    headers: Map<Seq<char>, Seq<Seq<u8>>>,
)
    requires
        !is_upgrade_request(headers),
    ensures
        stack.route_for(allowed, method, path, headers) != Route::WebSocket,
{
}

/// With WebSocket support switched off in the configuration, no request is
/// handed to the WebSocket proxy; a request routed there is an upgrade on a
/// WebSocket path with support switched on.
pub proof fn law_websocket_needs_support(
    stack: MiddlewareStack,
    allowed: bool,
    method: Seq<char>,
    path: Seq<char>,
    headers: Map<Seq<char>, Seq<Seq<u8>>>,
)
    ensures
        !stack.config().websocket.enabled ==> stack.route_for(allowed, method, path, headers)
            != Route::WebSocket,
        stack.route_for(allowed, method, path, headers) == Route::WebSocket ==> stack.config().websocket.enabled
            && is_upgrade_request(headers) && ws_path_matches(stack.ws_patterns(), path),
{
}

/// Each answer of the router has its cause: a refusal for the rate only
/// when limiting is on and the limiter said no; a block only when the
/// filter is on and one of its globs matches the path; and a forwarded
/// GET or HEAD request tries the cache exactly when caching is on.
pub proof fn law_route_causes(
    stack: MiddlewareStack,
    allowed: bool,
    method: Seq<char>,
    path: Seq<char>,
    headers: Map<Seq<char>, Seq<Seq<u8>>>,
)
    ensures
        stack.route_for(allowed, method, path, headers) == Route::RateLimited <==> stack.config().rate_limit.enabled
            && !allowed,
        stack.route_for(allowed, method, path, headers) == Route::Blocked ==> stack.config().filter.enabled
            && (stack.filter().globs() matches Some(g) && globset_matches(g, path)),
        stack.route_for(allowed, method, path, headers) matches Route::Forward { try_cache } ==> (
        try_cache <==> stack.config().cache.enabled && (method == "GET"@ || method == "HEAD"@)),
{
}

/// The middlewares of the proxy, in the order they apply.
pub struct MiddlewareStack {
    config: Arc<Config>,
    rate_limiter: RateLimitMiddleware,
    filter: FilterMiddleware,
    cache: CacheMiddleware,
    security: SecurityMiddleware,
}

impl MiddlewareStack {
    pub closed spec fn config(&self) -> Config {
        *self.config
    }

    pub closed spec fn filter(&self) -> FilterMiddleware {
        self.filter
    }

    pub closed spec fn cache(&self) -> CacheMiddleware {
        self.cache
    }

    pub closed spec fn security(&self) -> SecurityMiddleware {
        self.security
    }

    pub closed spec fn rate_limiter(&self) -> RateLimitMiddleware {
        self.rate_limiter
    }

    /// The rate limiter is on exactly when the configuration enables it.
    pub closed spec fn wf(&self) -> bool {
        self.rate_limiter.is_enabled() == self.config.rate_limit.enabled
    }

    /// The WebSocket path patterns, as text.
    pub open spec fn ws_patterns(&self) -> Seq<Seq<char>> {
        self.config().websocket.paths@.map_values(|p: String| p@)
    }

    /// The route of a request, given whether the rate limiter let it pass.
    pub open spec fn route_for(
        &self,
        rate_allowed: bool,
        method: Seq<char>,
        path: Seq<char>,
        headers: Map<Seq<char>, Seq<Seq<u8>>>,
    ) -> Route {
        if self.config().rate_limit.enabled && !rate_allowed {
            Route::RateLimited
        } else if self.config().filter.enabled && (self.filter().globs() matches Some(g)
            && globset_matches(g, path)) {
            Route::Blocked
        } else if self.config().websocket.enabled && is_upgrade_request(headers)
            && ws_path_matches(self.ws_patterns(), path) {
            Route::WebSocket
        } else {
            Route::Forward {
                try_cache: self.config().cache.enabled && (method == "GET"@ || method == "HEAD"@),
            }
        }
    }

    /// The middlewares for a configuration.
    pub fn new(config: Arc<Config>) -> (r: Self)
        requires
            config.rate_limit.enabled ==> config.rate_limit.requests_per_second > 0
                && config.rate_limit.burst_size > 0,
        ensures
            r.config() == *config,
            r.rate_limiter().is_enabled() == config.rate_limit.enabled,
            r.rate_limiter().buckets() == Set::<Seq<char>>::empty(),
            r.wf(),
            r.filter().globs() == filter::filter_globs_for(config.filter),
            r.security().hsts() == config.security.hsts_enabled,
            r.security().pairs() == config.security.headers@.map_values(
                |p: (String, String)| (p.0@, p.1@),
            ),
            r.cache().is_enabled() == config.cache.enabled,
    {
        let rate_limiter = RateLimitMiddleware::new(&config.rate_limit);
        let filter = FilterMiddleware::new(&config.filter);
        let cache = CacheMiddleware::new(&config.cache);
        let security = SecurityMiddleware::new(&config.security);
        Self { rate_limiter, filter, cache, security, config }
    }

    /// Whether the path is one where WebSocket upgrades are accepted.
    pub fn is_websocket_path(&self, path: &str) -> (r: bool)
        ensures
            r == ws_path_matches(self.ws_patterns(), path@),
    {
        ws_path_matches_exec(&self.config.websocket.paths, path)
    }

    /// The route of a request once the rate limiter has answered.
    pub fn decide(&self, rate_allowed: bool, method: &str, path: &str, headers: &HeaderMap) -> (r:
        Route)
        ensures
            r == self.route_for(rate_allowed, method@, path@, header_map_contents(*headers)),
    {
        if self.config.rate_limit.enabled && !rate_allowed {
            return Route::RateLimited;
        }
        if self.config.filter.enabled && self.filter.is_blocked(path) {
            return Route::Blocked;
        }
        if self.config.websocket.enabled && is_websocket_upgrade(headers) {
            if self.is_websocket_path(path) {
                return Route::WebSocket;
            }
        }
        proof {
            reveal_strlit("GET");
            reveal_strlit("HEAD");
        }
        let m = chars_of(method);
        let is_get_or_head = chars_eq(&m, &chars_of("GET")) || chars_eq(&m, &chars_of("HEAD"));
        Route::Forward { try_cache: self.config.cache.enabled && is_get_or_head }
    }

    /// The route of a request: asks the rate limiter about the client's
    /// address (when limiting is enabled), then decides. Without rate
    /// limiting, or on the first request of an address, the limiter lets the
    /// request pass and the route does not depend on the clock.
    pub fn route(&mut self, method: &str, path: &str, headers: &HeaderMap, client_ip: &str) -> (r:
        Route)
        requires
            old(self).wf(),
        ensures
            final(self).wf(),
            final(self).config() == old(self).config(),
            final(self).filter() == old(self).filter(),
            final(self).cache() == old(self).cache(),
            final(self).security() == old(self).security(),
            exists|allowed: bool|
                r == #[trigger] old(self).route_for(
                    allowed,
                    method@,
                    path@,
                    header_map_contents(*headers),
                ),
            !old(self).config().rate_limit.enabled ==> r == old(self).route_for(
                true,
                method@,
                path@,
                header_map_contents(*headers),
            ),
            old(self).config().rate_limit.enabled && !old(self).rate_limiter().buckets().contains(
                client_ip@,
            ) ==> r == old(self).route_for(true, method@, path@, header_map_contents(*headers)),
            old(self).config().rate_limit.enabled ==> final(self).rate_limiter().buckets()
                == old(self).rate_limiter().buckets().insert(client_ip@),
            !old(self).config().rate_limit.enabled ==> final(self).rate_limiter().buckets()
                == old(self).rate_limiter().buckets(),
    {
        let ghost before = *self;
        let allowed = if self.config.rate_limit.enabled {
            self.rate_limiter.check(client_ip)
        } else {
            true
        };
        let r = self.decide(allowed, method, path, headers);
        assert(r == before.route_for(allowed, method@, path@, header_map_contents(*headers)));
        r
    }

    /// Adds the security headers to an upstream response (when HSTS or some
    /// extra header is configured).
    pub fn secure_response(&self, headers: &mut HeaderMap)
        requires
            has_room(header_map_contents(*old(headers)), self.security().pairs().len() + 1),
        ensures
            self.config().security.hsts_enabled || self.config().security.headers@.len() > 0
                ==> header_map_contents(*final(headers)) == secured_headers(
                header_map_contents(*old(headers)),
                self.security().hsts(),
                self.security().pairs(),
            ),
            !(self.config().security.hsts_enabled || self.config().security.headers@.len() > 0)
                ==> header_map_contents(*final(headers)) == header_map_contents(*old(headers)),
    {
        if self.config.security.hsts_enabled || self.config.security.headers.len() > 0 {
            self.security.add_headers(headers);
        }
    }

    /// Adds the security headers to an upstream response when its map has
    /// room for them, and says whether it did; a map without room is left
    /// as it was.
    pub fn add_security_headers(&self, headers: &mut HeaderMap) -> (r: bool)
        ensures
            r == has_room(header_map_contents(*old(headers)), self.security().pairs().len() + 1),
            r && (self.config().security.hsts_enabled || self.config().security.headers@.len() > 0)
                ==> header_map_contents(*final(headers)) == secured_headers(
                header_map_contents(*old(headers)),
                self.security().hsts(),
                self.security().pairs(),
            ),
            !(r && (self.config().security.hsts_enabled || self.config().security.headers@.len()
                > 0)) ==> header_map_contents(*final(headers)) == header_map_contents(*old(headers)),
    {
        let n = self.security.headers_len();
        if n >= MAX_HEADER_NAMES || !room_for(headers, n + 1) {
            return false;
        }
        self.secure_response(headers);
        true
    }

    /// Whether a successful response to a GET or HEAD request on this path
    /// is one the cache would keep.
    pub fn is_cacheable(&self, method: &str, status: u16, path: &str) -> (r: bool)
        ensures
            r == (self.config().cache.enabled && (method@ == "GET"@ || method@ == "HEAD"@) && 200
                <= status <= 299 && (self.cache().globs() matches Some(g) && globset_matches(
                g,
                path@,
            ))),
    {
        proof {
            reveal_strlit("GET");
            reveal_strlit("HEAD");
        }
        let m = chars_of(method);
        let is_get_or_head = chars_eq(&m, &chars_of("GET")) || chars_eq(&m, &chars_of("HEAD"));
        self.config.cache.enabled && is_get_or_head && 200 <= status && status <= 299
            && self.cache.is_cacheable_path(path)
    }

    /// The cache policy.
    pub fn cache_policy(&self) -> (r: &CacheMiddleware)
        ensures
            *r == self.cache(),
    {
        &self.cache
    }
}

} // verus!
