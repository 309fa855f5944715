//! Proxy configuration.

use vstd::prelude::*;

use crate::error::ProxyError;
use crate::text::{chars_of, concat_str, list_entries, parse_list_text};

verus! {

/// The whole configuration of the proxy.
#[derive(Debug, Clone)]
pub struct Config {
    pub server: ServerConfig,
    pub upstream: UpstreamConfig,
    pub tls: TlsConfig,
    pub rate_limit: RateLimitConfig,
    pub cache: CacheConfig,
    pub security: SecurityConfig,
    pub filter: FilterConfig,
    pub websocket: WebSocketConfig,
    pub log_level: String,
}

/// Where the proxy listens. The listen address is kept as text; it is a
/// socket address such as `0.0.0.0:443`.
#[derive(Debug, Clone)]
pub struct ServerConfig {
    pub listen_addr: String,
    pub http_port: u16,
}

/// The upstream server, and the connection timeout in seconds.
#[derive(Debug, Clone)]
pub struct UpstreamConfig {
    pub address: String,
    pub timeout_secs: u64,
}

#[derive(Debug, Clone)]
pub struct TlsConfig {
    pub enabled: bool,
    pub domains: Vec<String>,
    pub email: String,
    pub cache_dir: String,
}

#[derive(Debug, Clone)]
pub struct RateLimitConfig {
    pub enabled: bool,
    pub requests_per_second: u32,
    pub burst_size: u32,
}

#[derive(Debug, Clone)]
pub struct CacheConfig {
    pub enabled: bool,
    pub max_size: u64,
    pub paths: Vec<String>,
}

#[derive(Debug, Clone)]
pub struct SecurityConfig {
    pub hsts_enabled: bool,
    pub headers: Vec<(String, String)>,
}

#[derive(Debug, Clone)]
pub struct FilterConfig {
    pub enabled: bool,
    pub blocked_paths: Vec<String>,
}

#[derive(Debug, Clone)]
pub struct WebSocketConfig {
    pub enabled: bool,
    pub paths: Vec<String>,
}

// ---------------------------------------------------------------------------
// Reading the configuration from environment variables
// ---------------------------------------------------------------------------

/// Why a text is not an unsigned integer (as `str::parse` reports it).
#[derive(Debug, Clone, Copy, PartialEq, Eq)]
pub enum IntErrorKind {
    Empty,
    InvalidDigit,
    PosOverflow,
}

/// Reads decimal digits left to right onto `acc`; the first non-digit, or
/// the first digit that takes the value above `max`, is an error.
pub open spec fn scan_digits(d: Seq<char>, acc: nat, max: nat) -> Result<nat, IntErrorKind>
    decreases d.len(),
{
    if d.len() == 0 {
        Ok(acc)
    } else if !('0' <= d[0] <= '9') {
        Err(IntErrorKind::InvalidDigit)
    } else {
        let v = acc * 10 + (d[0] as int - '0' as int);
        if v > max {
            Err(IntErrorKind::PosOverflow)
        } else {
            scan_digits(d.drop_first(), v as nat, max)
        }
    }
}

/// An unsigned integer of at most `max` in decimal: an optional `+` and
/// then digits.
pub open spec fn parse_uint(s: Seq<char>, max: nat) -> Result<nat, IntErrorKind> {
    if s.len() == 0 {
        Err(IntErrorKind::Empty)
    } else if s.len() == 1 && (s[0] == '+' || s[0] == '-') {
        Err(IntErrorKind::InvalidDigit)
    } else if s[0] == '+' {
        scan_digits(s.drop_first(), 0, max)
    } else {
        scan_digits(s, 0, max)
    }
}

/// `true` or `false`.
pub open spec fn parse_bool(s: Seq<char>) -> Option<bool> {
    if s == "true"@ {
        Some(true)
    } else if s == "false"@ {
        Some(false)
    } else {
        None
    }
}

/// The text of an integer parse error.
pub open spec fn int_error_text(k: IntErrorKind) -> Seq<char> {
    match k {
        IntErrorKind::Empty => "cannot parse integer from empty string"@,
        IntErrorKind::InvalidDigit => "invalid digit found in string"@,
        IntErrorKind::PosOverflow => "number too large to fit in target type"@,
    }
}

/// The text of a boolean parse error.
pub open spec fn bool_error_text() -> Seq<char> {
    "provided string was not `true` or `false`"@
}

/// The message of a configuration error for `key`.
pub open spec fn invalid_value_message(key: Seq<char>, reason: Seq<char>) -> Seq<char> {
    "Invalid value for "@ + key + ": "@ + reason
}

/// The environment as (name, value) texts.
pub open spec fn env_view(vars: Seq<(String, String)>) -> Seq<(Seq<char>, Seq<char>)> {
    vars.map_values(|p: (String, String)| (p.0@, p.1@))
}

/// The value of the first variable named `key`.
pub open spec fn env_lookup(env: Seq<(Seq<char>, Seq<char>)>, key: Seq<char>) -> Option<Seq<char>>
    decreases env.len(),
{
    if env.len() == 0 {
        None
    } else if env[0].0 == key {
        Some(env[0].1)
    } else {
        env_lookup(env.drop_first(), key)
    }
}

/// The value of `key`, or `default` when it is not set.
pub open spec fn env_or(env: Seq<(Seq<char>, Seq<char>)>, key: Seq<char>, default: Seq<char>) -> Seq<
    char,
> {
    match env_lookup(env, key) {
        Some(v) => v,
        None => default,
    }
}

/// An unsigned variable: its value, or the error message.
pub open spec fn env_uint(
    env: Seq<(Seq<char>, Seq<char>)>,
    key: Seq<char>,
    default: Seq<char>,
    max: nat,
) -> Result<nat, Seq<char>> {
    match parse_uint(env_or(env, key, default), max) {
        Ok(v) => Ok(v),
        Err(k) => Err(invalid_value_message(key, int_error_text(k))),
    }
}

/// A boolean variable: its value, or the error message.
pub open spec fn env_bool(env: Seq<(Seq<char>, Seq<char>)>, key: Seq<char>, default: Seq<char>) -> Result<
    bool,
    Seq<char>,
> {
    match parse_bool(env_or(env, key, default)) {
        Some(b) => Ok(b),
        None => Err(invalid_value_message(key, bool_error_text())),
    }
}

pub fn int_error_message(k: IntErrorKind) -> (r: &'static str)
    ensures
        r@ == int_error_text(k),
{
    match k {
        IntErrorKind::Empty => "cannot parse integer from empty string",
        IntErrorKind::InvalidDigit => "invalid digit found in string",
        IntErrorKind::PosOverflow => "number too large to fit in target type",
    }
}

proof fn lemma_scan_bound(d: Seq<char>, acc: nat, max: nat)
    ensures
        scan_digits(d, acc, max) matches Ok(v) ==> (acc <= max ==> v <= max) && (d.len() > 0 ==> v <= max),
    decreases d.len(),
{
    if d.len() > 0 && '0' <= d[0] <= '9' {
        let v = acc * 10 + (d[0] as int - '0' as int);
        if v <= max {
            lemma_scan_bound(d.drop_first(), v as nat, max);
        }
    }
}

/// A parsed integer is at most the bound.
pub proof fn lemma_parse_uint_bound(s: Seq<char>, max: nat)
    ensures
        parse_uint(s, max) matches Ok(v) ==> v <= max,
{
    if s.len() > 0 {
        if s[0] == '+' {
            lemma_scan_bound(s.drop_first(), 0, max);
        } else {
            lemma_scan_bound(s, 0, max);
        }
    }
}

proof fn lemma_scan_push(s: Seq<char>, c: char, acc: nat, max: nat)
    requires
        '0' <= c <= '9',
    ensures
        scan_digits(s.push(c), acc, max) == (match scan_digits(s, acc, max) {
            Ok(v) => if v * 10 + (c as int - '0' as int) > max {
                Err(IntErrorKind::PosOverflow)
            } else {
                Ok((v * 10 + (c as int - '0' as int)) as nat)
            },
            Err(e) => Err(e),
        }),
    decreases s.len(),
{
    if s.len() == 0 {
        assert(s.push(c).drop_first() =~= Seq::<char>::empty());
        assert(s.push(c)[0] == c);
        let v = acc * 10 + (c as int - '0' as int);
        if v <= max {
            assert(scan_digits(Seq::<char>::empty(), v as nat, max) == Ok::<nat, IntErrorKind>(v as nat));
        }
    } else {
        assert(s.push(c)[0] == s[0]);
        assert(s.push(c).drop_first() =~= s.drop_first().push(c));
        if '0' <= s[0] <= '9' {
            let a = acc * 10 + (s[0] as int - '0' as int);
            if a <= max {
                lemma_scan_push(s.drop_first(), c, a as nat, max);
            }
        }
    }
}

proof fn lemma_decimal_digits(n: nat)
    ensures
        crate::text::decimal(n).len() >= 1,
        forall|i: int| 0 <= i < crate::text::decimal(n).len() ==> '0' <= #[trigger] crate::text::decimal(n)[i] <= '9',
    decreases n,
{
    if n >= 10 {
        lemma_decimal_digits(n / 10);
    }
}

proof fn lemma_scan_decimal(n: nat, max: nat)
    requires
        n <= max,
    ensures
        scan_digits(crate::text::decimal(n), 0, max) == Ok::<nat, IntErrorKind>(n),
    decreases n,
{
    let c = crate::text::digit_char(n % 10);
    assert(c as int - '0' as int == n % 10);
    if n < 10 {
        lemma_scan_push(Seq::<char>::empty(), c, 0, max);
        assert(Seq::<char>::empty().push(c) =~= crate::text::decimal(n));
    } else {
        lemma_scan_decimal(n / 10, max);
        lemma_scan_push(crate::text::decimal(n / 10), c, 0, max);
    }
}

/// Every number up to the bound reads back from its decimal text, with or
/// without a leading `+`; the empty text, and a lone sign, are refused.
pub proof fn law_parse_uint_decimal(n: nat, max: nat)
    requires
        n <= max,
    ensures
        parse_uint(crate::text::decimal(n), max) == Ok::<nat, IntErrorKind>(n),
        parse_uint(seq!['+'] + crate::text::decimal(n), max) == Ok::<nat, IntErrorKind>(n),
        parse_uint(Seq::<char>::empty(), max) == Err::<nat, IntErrorKind>(IntErrorKind::Empty),
        parse_uint(seq!['+'], max) == Err::<nat, IntErrorKind>(IntErrorKind::InvalidDigit),
        parse_uint(seq!['-'], max) == Err::<nat, IntErrorKind>(IntErrorKind::InvalidDigit),
{
    lemma_scan_decimal(n, max);
    lemma_decimal_digits(n);
    let d = crate::text::decimal(n);
    assert(d[0] != '+' && d[0] != '-');
    assert((seq!['+'] + d).drop_first() =~= d);
}

proof fn lemma_parse_overflow_scan(n: nat, max: nat)
    ensures
        parse_uint(crate::text::decimal(n), max) == scan_digits(crate::text::decimal(n), 0, max),
{
    lemma_decimal_digits(n);
    let d = crate::text::decimal(n);
    assert(d[0] != '+' && d[0] != '-');
}

/// A number past the bound is refused as an overflow.
pub proof fn law_parse_uint_overflow(n: nat, max: nat)
    requires
        n > max,
    ensures
        parse_uint(crate::text::decimal(n), max) == Err::<nat, IntErrorKind>(IntErrorKind::PosOverflow),
    decreases n,
{
    let c = crate::text::digit_char(n % 10);
    assert(c as int - '0' as int == n % 10);
    if n < 10 {
        lemma_scan_push(Seq::<char>::empty(), c, 0, max);
        assert(Seq::<char>::empty().push(c) =~= crate::text::decimal(n));
    } else if n / 10 > max {
        law_parse_uint_overflow(n / 10, max);
        lemma_decimal_digits(n / 10);
        lemma_parse_overflow_scan(n / 10, max);
        lemma_scan_push(crate::text::decimal(n / 10), c, 0, max);
    } else {
        lemma_scan_decimal(n / 10, max);
        lemma_scan_push(crate::text::decimal(n / 10), c, 0, max);
    }
    lemma_parse_overflow_scan(n, max);
}

/// Only `true` and `false` are booleans.
pub proof fn law_parse_bool(s: Seq<char>)
    ensures
        s == "true"@ ==> parse_bool(s) == Some(true),
        s == "false"@ ==> parse_bool(s) == Some(false),
        s != "true"@ && s != "false"@ ==> parse_bool(s) is None,
{
    reveal_strlit("true");
    reveal_strlit("false");
    assert("true"@[0] == 't' && "false"@[0] == 'f');
}

/// Parses an unsigned integer of at most `max`, as `str::parse` does.
pub fn parse_uint_exec(s: &str, max: u64) -> (r: Result<u64, IntErrorKind>)
    ensures
        r matches Ok(v) ==> parse_uint(s@, max as nat) == Ok::<nat, IntErrorKind>(v as nat),
        r matches Err(k) ==> parse_uint(s@, max as nat) == Err::<nat, IntErrorKind>(k),
{
    let cs = chars_of(s);
    let n = cs.len();
    if n == 0 {
        return Err(IntErrorKind::Empty);
    }
    if n == 1 && (cs[0] == '+' || cs[0] == '-') {
        return Err(IntErrorKind::InvalidDigit);
    }
    let start: usize = if cs[0] == '+' { 1 } else { 0 };
    let ghost digits = if cs@[0] == '+' { cs@.drop_first() } else { cs@ };
    let mut acc: u64 = 0;
    let mut i: usize = start;
    proof {
        assert(digits =~= cs@.skip(start as int));
        assert(parse_uint(s@, max as nat) == scan_digits(cs@.skip(start as int), 0, max as nat));
    }
    while i < n
        invariant
            start <= i <= n,
            parse_uint(s@, max as nat) == scan_digits(cs@.skip(start as int), 0, max as nat),
            n == cs@.len(),
            acc <= max,
            scan_digits(cs@.skip(start as int), 0, max as nat) == scan_digits(cs@.skip(i as int), acc as nat, max as nat),
        decreases n - i,
    {
        let c = cs[i];
        proof {
            assert(cs@.skip(i as int)[0] == c);
            assert(cs@.skip(i as int).drop_first() =~= cs@.skip(i + 1));
        }
        if !('0' <= c && c <= '9') {
            return Err(IntErrorKind::InvalidDigit);
        }
        let d = (c as u32 - '0' as u32) as u64;
        if d > max || acc > (max - d) / 10 {
            proof {
                if d <= max {
                    assert(acc * 10 + d > max) by (nonlinear_arith)
                        requires
                            acc > (max - d) / 10,
                            d <= max,
                    ;
                }
            }
            return Err(IntErrorKind::PosOverflow);
        }
        proof {
            assert(acc * 10 + d <= max) by (nonlinear_arith)
                requires
                    acc <= (max - d) / 10,
                    d <= max,
            ;
        }
        acc = acc * 10 + d;
        i = i + 1;
    }
    proof {
        assert(cs@.skip(n as int) =~= Seq::<char>::empty());
    }
    Ok(acc)
}

/// The value of the first variable named `key`, if any.
pub fn env_get(vars: &Vec<(String, String)>, key: &str) -> (r: Option<String>)
    ensures
        r matches Some(v) ==> env_lookup(env_view(vars@), key@) == Some(v@),
        r is None ==> env_lookup(env_view(vars@), key@) is None,
{
    let k = chars_of(key);
    let ghost env = env_view(vars@);
    let mut i: usize = 0;
    assert(env.skip(0) =~= env);
    while i < vars.len()
        invariant
            i <= vars@.len(),
            env == env_view(vars@),
            k@ == key@,
            env_lookup(env, key@) == env_lookup(env.skip(i as int), key@),
        decreases vars@.len() - i,
    {
        proof {
            assert(env.skip(i as int)[0] == env[i as int]);
            assert(env.skip(i as int).drop_first() =~= env.skip(i + 1));
        }
        if crate::text::chars_eq(&chars_of(vars[i].0.as_str()), &k) {
            return Some(vars[i].1.clone());
        }
        i = i + 1;
    }
    proof {
        assert(env.skip(vars@.len() as int) =~= Seq::<(Seq<char>, Seq<char>)>::empty());
    }
    None
}

/// The value of `key`, or `default`.
pub fn env_or_default(vars: &Vec<(String, String)>, key: &str, default: &str) -> (r: String)
    ensures
        r@ == env_or(env_view(vars@), key@, default@),
{
    match env_get(vars, key) {
        Some(v) => v,
        None => default.to_owned(),
    }
}

fn config_error(key: &str, reason: &str) -> (r: ProxyError)
    ensures
        r matches ProxyError::Config(m) && m@ == invalid_value_message(key@, reason@),
{
    proof {
        reveal_strlit("Invalid value for ");
        reveal_strlit(": ");
    }
    let m = concat_str(concat_str(concat_str("Invalid value for ", key).as_str(), ": ").as_str(), reason);
    ProxyError::Config(m)
}

/// An unsigned variable of at most `max`.
pub fn env_uint_value(vars: &Vec<(String, String)>, key: &str, default: &str, max: u64) -> (r: Result<
    u64,
    ProxyError,
>)
    ensures
        r matches Ok(v) ==> env_uint(env_view(vars@), key@, default@, max as nat) == Ok::<nat, Seq<char>>(v as nat),
        r matches Ok(v) ==> v <= max,
        r matches Err(e) ==> (e matches ProxyError::Config(m) && env_uint(env_view(vars@), key@, default@, max as nat) == Err::<nat, Seq<char>>(m@)),
{
    let text = env_or_default(vars, key, default);
    proof {
        lemma_parse_uint_bound(text@, max as nat);
    }
    match parse_uint_exec(text.as_str(), max) {
        Ok(v) => Ok(v),
        Err(k) => Err(config_error(key, int_error_message(k))),
    }
}

/// A boolean variable.
pub fn env_bool_value(vars: &Vec<(String, String)>, key: &str, default: &str) -> (r: Result<
    bool,
    ProxyError,
>)
    ensures
        r matches Ok(b) ==> env_bool(env_view(vars@), key@, default@) == Ok::<bool, Seq<char>>(b),
        r matches Err(e) ==> (e matches ProxyError::Config(m) && env_bool(env_view(vars@), key@, default@) == Err::<bool, Seq<char>>(m@)),
{
    proof {
        reveal_strlit("true");
        reveal_strlit("false");
        reveal_strlit("provided string was not `true` or `false`");
    }
    let text = env_or_default(vars, key, default);
    let cs = chars_of(text.as_str());
    if crate::text::chars_eq(&cs, &chars_of("true")) {
        Ok(true)
    } else if crate::text::chars_eq(&cs, &chars_of("false")) {
        Ok(false)
    } else {
        Err(config_error(key, "provided string was not `true` or `false`"))
    }
}

/// The entries of the comma-separated list in `key` (none when unset).
pub fn env_list(vars: &Vec<(String, String)>, key: &str, default: &str) -> (r: Vec<String>)
    ensures
        r@.map_values(|e: String| e@) == list_entries(env_or(env_view(vars@), key@, default@)),
{
    let text = env_or_default(vars, key, default);
    parse_list_text(text.as_str())
}

pub open spec fn uint_error(r: Result<nat, Seq<char>>) -> Option<Seq<char>> {
    match r {
        Ok(_) => None,
        Err(m) => Some(m),
    }
}

pub open spec fn bool_error(r: Result<bool, Seq<char>>) -> Option<Seq<char>> {
    match r {
        Ok(_) => None,
        Err(m) => Some(m),
    }
}

/// The first error of a list, if any.
pub open spec fn first_error(errs: Seq<Option<Seq<char>>>) -> Option<Seq<char>>
    decreases errs.len(),
{
    if errs.len() == 0 {
        None
    } else if errs[0] is Some {
        errs[0]
    } else {
        first_error(errs.drop_first())
    }
}

/// The parse results of the typed variables, in the order they are read.
pub open spec fn config_errors(env: Seq<(Seq<char>, Seq<char>)>) -> Seq<Option<Seq<char>>> {
    seq![
        uint_error(env_uint(env, "RPROXY_HTTP_PORT"@, "80"@, 65535)),
        uint_error(env_uint(env, "RPROXY_UPSTREAM_TIMEOUT"@, "30"@, 18446744073709551615)),
        bool_error(env_bool(env, "RPROXY_RATE_LIMIT_ENABLED"@, "true"@)),
        uint_error(env_uint(env, "RPROXY_RATE_LIMIT"@, "100"@, 4294967295)),
        uint_error(env_uint(env, "RPROXY_RATE_BURST"@, "200"@, 4294967295)),
        bool_error(env_bool(env, "RPROXY_CACHE_ENABLED"@, "true"@)),
        uint_error(env_uint(env, "RPROXY_CACHE_SIZE"@, "500"@, 18446744073709551615)),
        bool_error(env_bool(env, "RPROXY_HSTS"@, "true"@)),
        bool_error(env_bool(env, "RPROXY_FILTER_ENABLED"@, "true"@)),
        bool_error(env_bool(env, "RPROXY_WS_ENABLED"@, "true"@)),
    ]
}

/// The default cache path patterns.
pub open spec fn default_cache_paths() -> Seq<char> {
    "/_next/static/*,/static/*,*.css,*.js,*.woff2,*.png,*.jpg,*.svg"@
}

/// The default blocked path patterns.
pub open spec fn default_blocked_paths() -> Seq<char> {
    "/.env*,/.git*,/.svn*,/.hg*,/*.sql,/*.bak,/docker-compose*.yml"@
}

/// The default WebSocket path patterns.
pub open spec fn default_ws_paths() -> Seq<char> {
    "/_next/webpack-hmr,/ws,/ws/*,/socket.io/*"@
}

/// The security headers always configured.
pub open spec fn default_security_pairs() -> Seq<(Seq<char>, Seq<char>)> {
    seq![
        ("X-Content-Type-Options"@, "nosniff"@),
        ("X-Frame-Options"@, "DENY"@),
        ("X-XSS-Protection"@, "1; mode=block"@),
        ("Referrer-Policy"@, "strict-origin-when-cross-origin"@),
    ]
}

pub open spec fn strings_view(v: Seq<String>) -> Seq<Seq<char>> {
    v.map_values(|e: String| e@)
}

/// The configuration read from the environment.
pub open spec fn config_matches(c: Config, env: Seq<(Seq<char>, Seq<char>)>) -> bool {
    &&& c.server.listen_addr@ == env_or(env, "RPROXY_LISTEN"@, "0.0.0.0:443"@)
    &&& c.upstream.address@ == env_or(env, "RPROXY_UPSTREAM"@, "127.0.0.1:3000"@)
    &&& c.tls.enabled == (env_or(env, "RPROXY_TLS_DOMAINS"@, ""@).len() > 0)
    &&& strings_view(c.tls.domains@) == list_entries(env_or(env, "RPROXY_TLS_DOMAINS"@, ""@))
    &&& c.tls.email@ == env_or(env, "RPROXY_TLS_EMAIL"@, ""@)
    &&& c.tls.cache_dir@ == env_or(env, "RPROXY_TLS_CACHE_DIR"@, "/var/lib/rproxy/certs"@)
    &&& strings_view(c.cache.paths@) == list_entries(
        env_or(env, "RPROXY_CACHE_PATHS"@, default_cache_paths()),
    )
    &&& c.security.headers@.map_values(|p: (String, String)| (p.0@, p.1@)) == default_security_pairs()
    &&& strings_view(c.filter.blocked_paths@) == list_entries(
        env_or(env, "RPROXY_BLOCKED_PATHS"@, default_blocked_paths()),
    )
    &&& strings_view(c.websocket.paths@) == list_entries(
        env_or(env, "RPROXY_WS_PATHS"@, default_ws_paths()),
    )
    &&& c.log_level@ == env_or(env, "RPROXY_LOG_LEVEL"@, "info"@)
    &&& env_uint(env, "RPROXY_HTTP_PORT"@, "80"@, 65535) == Ok::<nat, Seq<char>>(c.server.http_port as nat)
    &&& env_uint(env, "RPROXY_UPSTREAM_TIMEOUT"@, "30"@, 18446744073709551615) == Ok::<nat, Seq<char>>(c.upstream.timeout_secs as nat)
    &&& env_bool(env, "RPROXY_RATE_LIMIT_ENABLED"@, "true"@) == Ok::<bool, Seq<char>>(c.rate_limit.enabled)
    &&& env_uint(env, "RPROXY_RATE_LIMIT"@, "100"@, 4294967295) == Ok::<nat, Seq<char>>(c.rate_limit.requests_per_second as nat)
    &&& env_uint(env, "RPROXY_RATE_BURST"@, "200"@, 4294967295) == Ok::<nat, Seq<char>>(c.rate_limit.burst_size as nat)
    &&& env_bool(env, "RPROXY_CACHE_ENABLED"@, "true"@) == Ok::<bool, Seq<char>>(c.cache.enabled)
    &&& env_uint(env, "RPROXY_CACHE_SIZE"@, "500"@, 18446744073709551615) == Ok::<nat, Seq<char>>(c.cache.max_size as nat)
    &&& env_bool(env, "RPROXY_HSTS"@, "true"@) == Ok::<bool, Seq<char>>(c.security.hsts_enabled)
    &&& env_bool(env, "RPROXY_FILTER_ENABLED"@, "true"@) == Ok::<bool, Seq<char>>(c.filter.enabled)
    &&& env_bool(env, "RPROXY_WS_ENABLED"@, "true"@) == Ok::<bool, Seq<char>>(c.websocket.enabled)
}

impl Config {
    /// The configuration given by environment variables (`vars` lists the
    /// variables that are set); unset variables take their defaults. Fails
    /// with the message of the first variable whose value does not parse.
    pub fn from_env_values(vars: &Vec<(String, String)>) -> (r: Result<Config, ProxyError>)
        ensures
            r is Ok <==> first_error(config_errors(env_view(vars@))) is None,
            r matches Ok(c) ==> config_matches(c, env_view(vars@)),
            r matches Err(e) ==> (e matches ProxyError::Config(m) && first_error(
                config_errors(env_view(vars@)),
            ) == Some(m@)),
    {
        let ghost env = env_view(vars@);
        proof {
            reveal_with_fuel(first_error, 11);
        }
        let listen_addr = env_or_default(vars, "RPROXY_LISTEN", "0.0.0.0:443");
        let http_port = match env_uint_value(vars, "RPROXY_HTTP_PORT", "80", 65535) {
            Ok(v) => v as u16,
            Err(e) => return Err(e),
        };
        let address = env_or_default(vars, "RPROXY_UPSTREAM", "127.0.0.1:3000");
        let timeout_secs = match env_uint_value(vars, "RPROXY_UPSTREAM_TIMEOUT", "30", 18446744073709551615) {
            Ok(v) => v,
            Err(e) => return Err(e),
        };
        let domains_text = env_or_default(vars, "RPROXY_TLS_DOMAINS", "");
        let tls_enabled = domains_text.as_str().unicode_len() > 0;
        let domains = env_list(vars, "RPROXY_TLS_DOMAINS", "");
        let email = env_or_default(vars, "RPROXY_TLS_EMAIL", "");
        let cache_dir = env_or_default(vars, "RPROXY_TLS_CACHE_DIR", "/var/lib/rproxy/certs");
        let rate_enabled = match env_bool_value(vars, "RPROXY_RATE_LIMIT_ENABLED", "true") {
            Ok(v) => v,
            Err(e) => return Err(e),
        };
        let rps = match env_uint_value(vars, "RPROXY_RATE_LIMIT", "100", 4294967295) {
            Ok(v) => v as u32,
            Err(e) => return Err(e),
        };
        let burst = match env_uint_value(vars, "RPROXY_RATE_BURST", "200", 4294967295) {
            Ok(v) => v as u32,
            Err(e) => return Err(e),
        };
        let cache_enabled = match env_bool_value(vars, "RPROXY_CACHE_ENABLED", "true") {
            Ok(v) => v,
            Err(e) => return Err(e),
        };
        let cache_size = match env_uint_value(vars, "RPROXY_CACHE_SIZE", "500", 18446744073709551615) {
            Ok(v) => v,
            Err(e) => return Err(e),
        };
        let cache_paths = env_list(
            vars,
            "RPROXY_CACHE_PATHS",
            "/_next/static/*,/static/*,*.css,*.js,*.woff2,*.png,*.jpg,*.svg",
        );
        let hsts = match env_bool_value(vars, "RPROXY_HSTS", "true") {
            Ok(v) => v,
            Err(e) => return Err(e),
        };
        let filter_enabled = match env_bool_value(vars, "RPROXY_FILTER_ENABLED", "true") {
            Ok(v) => v,
            Err(e) => return Err(e),
        };
        let blocked = env_list(
            vars,
            "RPROXY_BLOCKED_PATHS",
            "/.env*,/.git*,/.svn*,/.hg*,/*.sql,/*.bak,/docker-compose*.yml",
        );
        let ws_enabled = match env_bool_value(vars, "RPROXY_WS_ENABLED", "true") {
            Ok(v) => v,
            Err(e) => return Err(e),
        };
        let ws_paths = env_list(vars, "RPROXY_WS_PATHS", "/_next/webpack-hmr,/ws,/ws/*,/socket.io/*");
        let log_level = env_or_default(vars, "RPROXY_LOG_LEVEL", "info");
        let mut headers: Vec<(String, String)> = Vec::new();
        headers.push(("X-Content-Type-Options".to_owned(), "nosniff".to_owned()));
        headers.push(("X-Frame-Options".to_owned(), "DENY".to_owned()));
        headers.push(("X-XSS-Protection".to_owned(), "1; mode=block".to_owned()));
        headers.push(("Referrer-Policy".to_owned(), "strict-origin-when-cross-origin".to_owned()));
        let c = Config {
            server: ServerConfig { listen_addr, http_port },
            upstream: UpstreamConfig { address, timeout_secs },
            tls: TlsConfig { enabled: tls_enabled, domains, email, cache_dir },
            rate_limit: RateLimitConfig { enabled: rate_enabled, requests_per_second: rps, burst_size: burst },
            cache: CacheConfig { enabled: cache_enabled, max_size: cache_size, paths: cache_paths },
            security: SecurityConfig { hsts_enabled: hsts, headers },
            filter: FilterConfig { enabled: filter_enabled, blocked_paths: blocked },
            websocket: WebSocketConfig { enabled: ws_enabled, paths: ws_paths },
            log_level,
        };
        proof {
            assert(c.security.headers@.map_values(|p: (String, String)| (p.0@, p.1@)) =~= default_security_pairs());
        }
        Ok(c)
    }
}

} // verus!
