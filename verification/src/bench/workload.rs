//! Request workloads: what each benchmark request looks like.
//!
//! The HTTP client itself lives with the program; this module decides the
//! method, path, headers and body of every request, and builds the JSON
//! bodies that are sent.

use vstd::prelude::*;
use rand::Rng;

use crate::bench::config::{RequestConfig, RequestMix};
use crate::text::{chars_eq, chars_of};

pub mod patterns;

verus! {

/// The HTTP methods a benchmark request can use.
#[derive(Debug, Clone, Copy, PartialEq, Eq, Structural)]
pub enum HttpMethod {
    Get,
    Post,
    Put,
    Delete,
    Patch,
    Head,
}

// ---------------------------------------------------------------------------
// Random draws
// ---------------------------------------------------------------------------

/// `rand::rng().random_range(0..n)` on `u8`: a number drawn uniformly below
/// `n` from the thread-local generator. Only its range is stated.
#[verifier::external_body]
fn random_below(n: u8) -> (r: u8)
    requires
        n > 0,
    ensures
        r < n,
{
    rand::rng().random_range(0..n)
}

/// `rand::rng().random_range(0..n)` on `usize`: an index drawn uniformly
/// below `n`. Only its range is stated.
#[verifier::external_body]
fn random_index(n: usize) -> (r: usize)
    requires
        n > 0,
    ensures
        r < n,
{
    rand::rng().random_range(0..n)
}

// ---------------------------------------------------------------------------
// Request bodies
// ---------------------------------------------------------------------------

/// The bytes `{"data":"` that open every body.
pub open spec fn body_open() -> Seq<u8> {
    seq![123u8, 34u8, 100u8, 97u8, 116u8, 97u8, 34u8, 58u8, 34u8]
}

/// The bytes `"}` that close every body.
pub open spec fn body_close() -> Seq<u8> {
    seq![34u8, 125u8]
}

/// A lowercase ASCII letter.
pub open spec fn is_lower_letter(b: u8) -> bool {
    97 <= b <= 122
}

/// How many padding letters a body of nominal size `size` holds: the size
/// less twenty bytes for the JSON around them.
pub open spec fn padding_len(size: nat) -> nat {
    if size >= 20 { (size - 20) as nat } else { 0 }
}

/// The body of nominal size `size` around the padding `letters`: the JSON
/// opening, the letters and the closing quote and brace; when that is longer
/// than `size`, it is cut to `size - 2` bytes and closed again.
pub open spec fn body_with(size: nat, letters: Seq<u8>) -> Seq<u8> {
    let full = body_open() + letters + body_close();
    if full.len() > size {
        full.take(size - 2) + body_close()
    } else {
        full
    }
}

/// The length of every body of nominal size `size`.
pub open spec fn body_len(size: nat) -> nat {
    if size >= 20 {
        (size - 9) as nat
    } else if size >= 11 {
        11
    } else {
        size
    }
}

/// A body of nominal size `size` around the given padding letters.
pub fn body_from_letters(size: usize, letters: &Vec<u8>) -> (r: Vec<u8>)
    requires
        size >= 2,
        letters@.len() == padding_len(size as nat),
    ensures
        r@ == body_with(size as nat, letters@),
        r@.len() == body_len(size as nat),
{
    let mut body: Vec<u8> = Vec::new();
    body.push(123u8);
    body.push(34u8);
    body.push(100u8);
    body.push(97u8);
    body.push(116u8);
    body.push(97u8);
    body.push(34u8);
    body.push(58u8);
    body.push(34u8);
    assert(body@ =~= body_open());
    let mut i: usize = 0;
    while i < letters.len()
        invariant
            i <= letters@.len(),
            body@ == body_open() + letters@.take(i as int),
        decreases letters@.len() - i,
    {
        body.push(letters[i]);
        i = i + 1;
        assert(body@ =~= body_open() + letters@.take(i as int));
    }
    assert(letters@.take(letters@.len() as int) =~= letters@);
    body.push(34u8);
    body.push(125u8);
    let ghost full = body_open() + letters@ + body_close();
    assert(body@ =~= full);
    if body.len() > size {
        body.truncate(size - 2);
        body.push(34u8);
        body.push(125u8);
        assert(body@ =~= full.take(size - 2) + body_close());
    }
    body
}

/// A JSON body `{"data":"..."}` of nominal size `size` whose padding is
/// random lowercase letters.
pub fn generate_body(size: usize) -> (r: Vec<u8>)
    requires
        size >= 2,
    ensures
        r@.len() == body_len(size as nat),
        exists|letters: Seq<u8>|
            #![trigger body_with(size as nat, letters)]
            letters.len() == padding_len(size as nat)
            && (forall|i: int| 0 <= i < letters.len() ==> is_lower_letter(#[trigger] letters[i]))
            && r@ == body_with(size as nat, letters),
{
    let pad: usize = if size >= 20 { size - 20 } else { 0 };
    let mut letters: Vec<u8> = Vec::new();
    let mut i: usize = 0;
    while i < pad
        invariant
            i <= pad,
            letters@.len() == i,
            forall|j: int| 0 <= j < letters@.len() ==> is_lower_letter(#[trigger] letters@[j]),
        decreases pad - i,
    {
        let c = random_below(26);
        letters.push(c + 97);
        i = i + 1;
    }
    body_from_letters(size, &letters)
}

/// A body is never longer than its nominal size, and at most nine bytes
/// shorter.
pub proof fn law_body_size(size: nat)
    requires
        size >= 2,
    ensures
        size - 9 <= body_len(size) <= size,
{
}

/// Every body has the length `body_len` gives and ends with `"}`; from a
/// nominal size of 11 on it starts with `{"data":"`, and from 20 on the
/// padding letters stand between the two.
pub proof fn law_body_shape(size: nat, letters: Seq<u8>)
    requires
        size >= 2,
        letters.len() == padding_len(size),
    ensures
        body_with(size, letters).len() == body_len(size),
        body_with(size, letters).subrange(body_len(size) - 2, body_len(size) as int) == body_close(),
        size >= 11 ==> body_with(size, letters).take(9) == body_open(),
        size >= 20 ==> body_with(size, letters).subrange(9, size - 11) == letters,
{
    let full = body_open() + letters + body_close();
    if full.len() > size {
        assert(body_with(size, letters).subrange(body_len(size) - 2, body_len(size) as int)
            =~= body_close());
    } else {
        assert(body_with(size, letters).subrange(body_len(size) - 2, body_len(size) as int)
            =~= body_close());
        assert(body_with(size, letters).take(9) =~= body_open());
        if size >= 20 {
            assert(body_with(size, letters).subrange(9, size - 11) =~= letters);
        }
    }
}

// ---------------------------------------------------------------------------
// Requests
// ---------------------------------------------------------------------------

/// What `str::to_uppercase` gives for a string (Unicode case mapping).
pub uninterp spec fn uppercase_text(s: Seq<char>) -> Seq<char>;

/// `str::to_uppercase` of std. Its result is named, not described.
#[verifier::external_body]
fn to_uppercase(s: &str) -> (r: String)
    ensures
        r@ == uppercase_text(s@),
{
    s.to_uppercase()
}

/// The method an uppercase method name stands for; GET for any other name.
pub open spec fn method_named(name: Seq<char>) -> HttpMethod {
    if name == "GET"@ {
        HttpMethod::Get
    } else if name == "POST"@ {
        HttpMethod::Post
    } else if name == "PUT"@ {
        HttpMethod::Put
    } else if name == "DELETE"@ {
        HttpMethod::Delete
    } else if name == "PATCH"@ {
        HttpMethod::Patch
    } else if name == "HEAD"@ {
        HttpMethod::Head
    } else {
        HttpMethod::Get
    }
}

/// Whether `v` holds exactly the characters of `lit`.
fn is_text(v: &Vec<char>, lit: &str) -> (r: bool)
    ensures
        r == (v@ == lit@),
{
    chars_eq(v, &chars_of(lit))
}

/// The method an uppercase method name stands for; GET for any other name.
pub fn method_from_name(name: &str) -> (r: HttpMethod)
    ensures
        r == method_named(name@),
{
    let n = chars_of(name);
    if is_text(&n, "GET") {
        HttpMethod::Get
    } else if is_text(&n, "POST") {
        HttpMethod::Post
    } else if is_text(&n, "PUT") {
        HttpMethod::Put
    } else if is_text(&n, "DELETE") {
        HttpMethod::Delete
    } else if is_text(&n, "PATCH") {
        HttpMethod::Patch
    } else if is_text(&n, "HEAD") {
        HttpMethod::Head
    } else {
        HttpMethod::Get
    }
}

/// The method a configured method name stands for, in any letter case.
pub fn parse_method(method: &str) -> (r: HttpMethod)
    ensures
        r == method_named(uppercase_text(method@)),
{
    let upper = to_uppercase(method);
    method_from_name(upper.as_str())
}

/// One request to send: its method, path and body.
#[derive(Debug, Clone)]
pub struct RequestPlan {
    pub method: HttpMethod,
    pub path: String,
    pub body: Option<Vec<u8>>,
}

/// The methods that carry the prepared body in a fixed workload.
pub open spec fn fixed_sends_body(m: HttpMethod) -> bool {
    m == HttpMethod::Post || m == HttpMethod::Put || m == HttpMethod::Patch
}

/// The methods that carry the prepared body in a mixed workload.
pub open spec fn mixed_sends_body(m: HttpMethod) -> bool {
    m == HttpMethod::Post || m == HttpMethod::Put
}

/// The body a request sends: the prepared body, when the method carries one.
pub open spec fn body_matches(r: Option<Vec<u8>>, sends: bool, prepared: Option<Vec<u8>>) -> bool {
    if sends {
        match (r, prepared) {
            (Some(b), Some(p)) => b@ == p@,
            (None, None) => true,
            _ => false,
        }
    } else {
        r is None
    }
}

fn copy_bytes(v: &Vec<u8>) -> (r: Vec<u8>)
    ensures
        r@ == v@,
{
    let mut r: Vec<u8> = Vec::new();
    let mut i: usize = 0;
    while i < v.len()
        invariant
            i <= v@.len(),
            r@ == v@.take(i as int),
        decreases v@.len() - i,
    {
        r.push(v[i]);
        i = i + 1;
        assert(r@ =~= v@.take(i as int));
    }
    assert(v@.take(v@.len() as int) =~= v@);
    r
}

fn body_for(sends: bool, prepared: &Option<Vec<u8>>) -> (r: Option<Vec<u8>>)
    ensures
        body_matches(r, sends, *prepared),
{
    if sends {
        match prepared {
            Some(p) => Some(copy_bytes(p)),
            None => None,
        }
    } else {
        None
    }
}

/// The request of a workload without a mix: the configured method (GET
/// when the name is unknown) and path, with the prepared body on POST, PUT
/// and PATCH.
pub fn plan_request(config: &RequestConfig, prepared: &Option<Vec<u8>>) -> (r: RequestPlan)
    requires
        config.mix is None,
    ensures
        r.method == method_named(uppercase_text(config.method@)),
        r.path@ == config.path@,
        body_matches(r.body, fixed_sends_body(r.method), *prepared),
{
    let method = parse_method(config.method.as_str());
    let sends = method == HttpMethod::Post || method == HttpMethod::Put || method == HttpMethod::Patch;
    RequestPlan { method, path: config.path.clone(), body: body_for(sends, prepared) }
}

/// The method a roll in `0..100` picks from a mix: GET below the GET share,
/// then POST, PUT, and DELETE for the rest.
pub open spec fn mixed_method(mix: RequestMix, roll: int) -> HttpMethod {
    if roll < mix.get_percent {
        HttpMethod::Get
    } else if roll < mix.get_percent + mix.post_percent {
        HttpMethod::Post
    } else if roll < mix.get_percent + mix.post_percent + mix.put_percent {
        HttpMethod::Put
    } else {
        HttpMethod::Delete
    }
}

/// Each method of a mix takes its configured share of the rolls, in the
/// order GET, POST, PUT, DELETE: GET the first `get_percent` rolls, POST the
/// next `post_percent`, PUT the next `put_percent`, DELETE the rest.
pub proof fn law_mixed_method_shares(mix: RequestMix, roll: int)
    ensures
        0 <= roll < mix.get_percent ==> mixed_method(mix, roll) == HttpMethod::Get,
        mix.get_percent <= roll < mix.get_percent + mix.post_percent ==> mixed_method(mix, roll)
            == HttpMethod::Post,
        mix.get_percent + mix.post_percent <= roll < mix.get_percent + mix.post_percent
            + mix.put_percent ==> mixed_method(mix, roll) == HttpMethod::Put,
        mix.get_percent + mix.post_percent + mix.put_percent <= roll ==> mixed_method(mix, roll)
            == HttpMethod::Delete,
{
}

/// A fixed workload sends its prepared body with POST, PUT and PATCH
/// requests, a mixed one with POST and PUT; GET, DELETE and HEAD requests
/// never carry a body.
pub proof fn law_methods_with_body(m: HttpMethod)
    ensures
        fixed_sends_body(m) <==> (m is Post || m is Put || m is Patch),
        mixed_sends_body(m) <==> (m is Post || m is Put),
        (m is Get || m is Delete || m is Head) ==> !fixed_sends_body(m) && !mixed_sends_body(m),
{
}

/// A configured method name stands for the method it spells in capitals;
/// any other name means GET.
pub proof fn law_method_names(name: Seq<char>)
    ensures
        name == "POST"@ ==> method_named(name) is Post,
        name == "PUT"@ ==> method_named(name) is Put,
        name == "DELETE"@ ==> method_named(name) is Delete,
        name == "PATCH"@ ==> method_named(name) is Patch,
        name == "HEAD"@ ==> method_named(name) is Head,
        name != "POST"@ && name != "PUT"@ && name != "DELETE"@ && name != "PATCH"@ && name
            != "HEAD"@ ==> method_named(name) is Get,
{
    reveal_strlit("GET");
    reveal_strlit("POST");
    reveal_strlit("PUT");
    reveal_strlit("DELETE");
    reveal_strlit("PATCH");
    reveal_strlit("HEAD");
    assert("GET"@[0] == 'G' && "DELETE"@[0] == 'D' && "HEAD"@[0] == 'H');
    assert("POST"@[0] == 'P' && "POST"@[1] == 'O');
    assert("PUT"@[0] == 'P' && "PUT"@[1] == 'U');
    assert("PATCH"@[0] == 'P' && "PATCH"@[1] == 'A');
}

/// The running shares of a mix stay within a byte for every roll below 100
/// that reaches them.
pub open spec fn mix_fits(mix: RequestMix) -> bool {
    mix.get_percent >= 100 || (mix.get_percent + mix.post_percent <= 255 && (mix.get_percent
        + mix.post_percent >= 100 || mix.get_percent + mix.post_percent + mix.put_percent <= 255))
}

/// Whether the running shares of a mix stay within a byte for every roll.
pub fn mix_is_valid(mix: &RequestMix) -> (r: bool)
    ensures
        r == mix_fits(*mix),
{
    let get = mix.get_percent as u16;
    let post = mix.post_percent as u16;
    let put = mix.put_percent as u16;
    get >= 100 || (get + post <= 255 && (get + post >= 100 || get + post + put <= 255))
}

/// The request of a mixed workload for a given roll in `0..100` and path
/// pick: the method the roll selects, the picked path (the configured path
/// when the mix has none), and the prepared body on POST and PUT.
pub fn plan_mixed_request(
    config: &RequestConfig,
    mix: &RequestMix,
    prepared: &Option<Vec<u8>>,
    roll: u8,
    pick: usize,
) -> (r: RequestPlan)
    requires
        roll < 100,
        mix_fits(*mix),
        mix.paths@.len() > 0 ==> pick < mix.paths@.len(),
    ensures
        r.method == mixed_method(*mix, roll as int),
        r.path@ == (if mix.paths@.len() == 0 {
            config.path@
        } else {
            mix.paths@[pick as int]@
        }),
        body_matches(r.body, mixed_sends_body(r.method), *prepared),
{
    let method = if roll < mix.get_percent {
        HttpMethod::Get
    } else if roll < mix.get_percent + mix.post_percent {
        HttpMethod::Post
    } else if roll < mix.get_percent + mix.post_percent + mix.put_percent {
        HttpMethod::Put
    } else {
        HttpMethod::Delete
    };
    let path = if mix.paths.len() == 0 {
        config.path.clone()
    } else {
        mix.paths[pick].clone()
    };
    let sends = method == HttpMethod::Post || method == HttpMethod::Put;
    RequestPlan { method, path, body: body_for(sends, prepared) }
}

/// A request of a mixed workload: a random roll in `0..100` picks the method
/// and, when the mix lists paths, a random one of them is requested.
pub fn generate_mixed_request(
    config: &RequestConfig,
    mix: &RequestMix,
    prepared: &Option<Vec<u8>>,
) -> (r: RequestPlan)
    requires
        mix_fits(*mix),
    ensures
        exists|roll: int|
            #![trigger mixed_method(*mix, roll)]
            0 <= roll < 100 && r.method == mixed_method(*mix, roll),
        mix.paths@.len() == 0 ==> r.path@ == config.path@,
        mix.paths@.len() > 0 ==> exists|k: int|
            0 <= k < mix.paths@.len() && r.path@ == (#[trigger] mix.paths@[k])@,
        body_matches(r.body, mixed_sends_body(r.method), *prepared),
{
    let roll = random_below(100);
    let pick = if mix.paths.len() == 0 { 0 } else { random_index(mix.paths.len()) };
    let r = plan_mixed_request(config, mix, prepared, roll, pick);
    assert(r.method == mixed_method(*mix, roll as int));
    proof {
        if mix.paths@.len() > 0 {
            assert(r.path@ == mix.paths@[pick as int]@);
        }
    }
    r
}

/// The request a workload sends next: a mixed request when the
/// configuration has a mix, else the fixed one.
pub fn generate_request(config: &RequestConfig, prepared: &Option<Vec<u8>>) -> (r: RequestPlan)
    requires
        config.mix matches Some(m) ==> mix_fits(m),
    ensures
        config.mix is None ==> r.method == method_named(uppercase_text(config.method@))
            && r.path@ == config.path@ && body_matches(r.body, fixed_sends_body(r.method), *prepared),
        config.mix matches Some(m) ==> (exists|roll: int|
            #![trigger mixed_method(m, roll)]
            0 <= roll < 100 && r.method == mixed_method(m, roll)) && body_matches(
            r.body,
            mixed_sends_body(r.method),
            *prepared,
        ),
        config.mix matches Some(m) ==> (m.paths@.len() == 0 ==> r.path@ == config.path@),
        config.mix matches Some(m) ==> (m.paths@.len() > 0 ==> exists|k: int|
            0 <= k < m.paths@.len() && r.path@ == (#[trigger] m.paths@[k])@),
{
    match &config.mix {
        Some(mix) => generate_mixed_request(config, mix, prepared),
        None => plan_request(config, prepared),
    }
}

/// The body a workload prepares once: `body_size` bytes of generated JSON,
/// or none when the size is zero.
pub fn prepare_body(config: &RequestConfig) -> (r: Option<Vec<u8>>)
    requires
        config.body_size != 1,
    ensures
        (r is None) == (config.body_size == 0),
        r matches Some(b) ==> b@.len() == body_len(config.body_size as nat),
        r matches Some(b) ==> exists|letters: Seq<u8>|
            #![trigger body_with(config.body_size as nat, letters)]
            letters.len() == padding_len(config.body_size as nat) && (forall|i: int|
                0 <= i < letters.len() ==> is_lower_letter(#[trigger] letters[i])) && b@ == body_with(
                config.body_size as nat,
                letters,
            ),
{
    if config.body_size > 0 {
        Some(generate_body(config.body_size))
    } else {
        None
    }
}

/// How the HTTP client of a workload is set up.
#[derive(Debug, Clone, Copy, PartialEq, Eq, Structural)]
pub struct ClientSettings {
    /// Request timeout in seconds.
    pub timeout_secs: u64,
    /// Idle connections kept per host.
    pub pool_max_idle_per_host: usize,
    /// Whether TCP_NODELAY is set.
    pub tcp_nodelay: bool,
    /// Whether gzip and brotli responses are accepted.
    pub compression: bool,
}

/// The client settings for a request configuration: a 30 s timeout,
/// 100 idle connections per host (none without keep-alive), no Nagle delay,
/// and compression when asked for.
pub fn client_settings(config: &RequestConfig) -> (r: ClientSettings)
    ensures
        r.timeout_secs == 30,
        r.pool_max_idle_per_host == (if config.keep_alive { 100usize } else { 0usize }),
        r.tcp_nodelay,
        r.compression == config.compression,
{
    ClientSettings {
        timeout_secs: 30,
        pool_max_idle_per_host: if config.keep_alive { 100 } else { 0 },
        tcp_nodelay: true,
        compression: config.compression,
    }
}

/// The headers of a request: the configured ones in order, then
/// `Content-Type: application/json` when it carries a body.
pub fn request_headers(config: &RequestConfig, has_body: bool) -> (r: Vec<(String, String)>)
    ensures
        r@.len() == config.headers@.len() + (if has_body { 1int } else { 0int }),
        forall|i: int|
            0 <= i < config.headers@.len() ==> (#[trigger] r@[i]).0@ == config.headers@[i].0@
                && r@[i].1@ == config.headers@[i].1@,
        has_body ==> r@.last().0@ == "Content-Type"@ && r@.last().1@ == "application/json"@,
{
    let mut r: Vec<(String, String)> = Vec::new();
    let mut i: usize = 0;
    while i < config.headers.len()
        invariant
            i <= config.headers@.len(),
            r@.len() == i,
            forall|j: int|
                0 <= j < i ==> (#[trigger] r@[j]).0@ == config.headers@[j].0@ && r@[j].1@
                    == config.headers@[j].1@,
        decreases config.headers@.len() - i,
    {
        let name = config.headers[i].0.clone();
        let value = config.headers[i].1.clone();
        r.push((name, value));
        i = i + 1;
    }
    if has_body {
        r.push(("Content-Type".to_owned(), "application/json".to_owned()));
    }
    r
}

} // verus!
