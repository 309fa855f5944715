//! Which requests and responses the response cache may keep.

use vstd::prelude::*;
use http::header::HeaderMap;

use crate::config::CacheConfig;
use crate::globs::{globset_builds, globset_matches, parsed_globs, GlobMatcher};
use crate::headers::{header_map_contents, header_text, header_text_of};
use crate::text::{chars_of, concat_str, contains, contains_chars, starts_with_char};

verus! {

/// Largest body, in bytes, that is stored.
pub const MAX_ENTRY_SIZE: usize = 5242880;

/// The glob a configured cache pattern stands for: patterns starting with
/// `/` or `*` are kept, others match at any depth.
pub open spec fn cache_glob(p: Seq<char>) -> Seq<char> {
    if p.len() > 0 && (p[0] == '/' || p[0] == '*') {
        p
    } else {
        "**/"@ + p
    }
}

pub open spec fn cache_globs(patterns: Seq<String>) -> Seq<Seq<char>> {
    patterns.map_values(|p: String| cache_glob(p@))
}

/// A cacheable-path pattern starting with `/` or `*` is used as it is; any
/// other is prefixed with `**/`, so that it matches at any depth.
pub proof fn law_cache_glob(p: Seq<char>)
    ensures
        p.len() > 0 && (p[0] == '/' || p[0] == '*') ==> cache_glob(p) == p,
        !(p.len() > 0 && (p[0] == '/' || p[0] == '*')) ==> cache_glob(p) == "**/"@ + p,
{
}

/// Content types of static assets and documents.
pub open spec fn cacheable_type(ct: Seq<char>) -> bool {
    ||| contains(ct, "text/css"@)
    ||| contains(ct, "text/javascript"@)
    ||| contains(ct, "application/javascript"@)
    ||| contains(ct, "application/json"@)
    ||| contains(ct, "image/"@)
    ||| contains(ct, "font/"@)
    ||| contains(ct, "text/html"@)
}

/// A response may be cached when it succeeded (2xx) and has a cacheable
/// content type.
pub open spec fn cacheable_response(status: u16, m: Map<Seq<char>, Seq<Seq<u8>>>) -> bool {
    &&& 200 <= status <= 299
    &&& header_text(m, "content-type"@) matches Some(ct) && cacheable_type(ct)
}

/// A response may be cached exactly when its status is 2xx and its
/// `Content-Type` (visible ASCII) mentions one of the types of static assets
/// and documents: CSS, JavaScript, JSON, images, fonts and HTML.
pub proof fn law_cacheable_content_types(status: u16, m: Map<Seq<char>, Seq<Seq<u8>>>)
    ensures
        cacheable_response(status, m) <==> 200 <= status < 300 && (header_text(m, "content-type"@)
            matches Some(ct) && (contains(ct, "text/html"@) || contains(ct, "text/css"@)
            || contains(ct, "text/javascript"@) || contains(ct, "application/javascript"@)
            || contains(ct, "application/json"@) || contains(ct, "image/"@) || contains(
            ct,
            "font/"@,
        ))),
{
}

/// `Cache-Control` forbids storing the response (`no-store` or `private`).
pub open spec fn forbids_store(m: Map<Seq<char>, Seq<Seq<u8>>>) -> bool {
    header_text(m, "cache-control"@) matches Some(cc) && (contains(cc, "no-store"@) || contains(
        cc,
        "private"@,
    ))
}

/// `Cache-Control` forbids storing exactly when its value mentions
/// `no-store` or `private`; a response without the header may be stored.
pub proof fn law_forbids_store(m: Map<Seq<char>, Seq<Seq<u8>>>)
    ensures
        forbids_store(m) <==> (header_text(m, "cache-control"@) matches Some(cc) && (contains(
            cc,
            "no-store"@,
        ) || contains(cc, "private"@))),
        !m.dom().contains("cache-control"@) ==> !forbids_store(m),
{
}

/// Decides what the response cache may hold.
pub struct CacheMiddleware {
    enabled: bool,
    cacheable_paths: GlobMatcher,
    max_entry_size: usize,
}

fn mentions(text: &Vec<char>, word: &str) -> (r: bool)
    ensures
        r == contains(text@, word@),
{
    contains_chars(text, &chars_of(word))
}

impl CacheMiddleware {
    pub closed spec fn is_enabled(&self) -> bool {
        self.enabled
    }

    /// The globs of cacheable paths, when they could be built.
    pub closed spec fn globs(&self) -> Option<Seq<Seq<char>>> {
        self.cacheable_paths.globs()
    }

    pub closed spec fn max_entry(&self) -> nat {
        self.max_entry_size as nat
    }

    /// The cache policy for the configuration: disabled, or enabled with the
    /// configured path patterns and a 5 MB limit per entry.
    pub fn new(config: &CacheConfig) -> (r: Self)
        ensures
            r.is_enabled() == config.enabled,
            !config.enabled ==> r.globs() is None && r.max_entry() == 0,
            config.enabled ==> r.max_entry() == MAX_ENTRY_SIZE,
            config.enabled ==> (if globset_builds(parsed_globs(cache_globs(config.paths@))) {
                r.globs() == Some(parsed_globs(cache_globs(config.paths@)))
            } else {
                r.globs() is None
            }),
    {
        if !config.enabled {
            return Self { enabled: false, cacheable_paths: GlobMatcher::empty(), max_entry_size: 0 };
        }
        proof {
            reveal_strlit("**/");
        }
        let mut globs: Vec<String> = Vec::new();
        let mut i: usize = 0;
        while i < config.paths.len()
            invariant
                i <= config.paths@.len(),
                globs@.len() == i,
                forall|j: int| 0 <= j < i ==> #[trigger] globs@[j]@ == cache_glob(config.paths@[j]@),
            decreases config.paths@.len() - i,
        {
            let pattern = config.paths[i].as_str();
            let g = if starts_with_char(pattern, '/') || starts_with_char(pattern, '*') {
                pattern.to_owned()
            } else {
                concat_str("**/", pattern)
            };
            globs.push(g);
            i = i + 1;
        }
        proof {
            assert(globs@.map_values(|p: String| p@) =~= cache_globs(config.paths@));
        }
        Self {
            enabled: true,
            cacheable_paths: GlobMatcher::new(&globs),
            max_entry_size: MAX_ENTRY_SIZE,
        }
    }

    /// Whether responses for this path may be cached.
    pub fn is_cacheable_path(&self, path: &str) -> (r: bool)
        ensures
            r == (self.globs() matches Some(g) && globset_matches(g, path@)),
    {
        self.cacheable_paths.is_match(path)
    }

    /// Whether a response with this status and these headers may be cached.
    pub fn is_cacheable_response(&self, status: u16, headers: &HeaderMap) -> (r: bool)
        ensures
            r == cacheable_response(status, header_map_contents(*headers)),
    {
        if !(200 <= status && status <= 299) {
            return false;
        }
        proof {
            reveal_strlit("content-type");
        }
        match header_text_of(headers, "content-type") {
            Some(ct) => {
                mentions(&ct, "text/css") || mentions(&ct, "text/javascript") || mentions(
                    &ct,
                    "application/javascript",
                ) || mentions(&ct, "application/json") || mentions(&ct, "image/") || mentions(
                    &ct,
                    "font/",
                ) || mentions(&ct, "text/html")
            },
            None => false,
        }
    }

    /// Whether a response of these headers and this body size is stored: the
    /// cache is enabled, the body is at most the entry limit, and
    /// `Cache-Control` does not forbid it.
    pub fn should_store(&self, headers: &HeaderMap, body_len: usize) -> (r: bool)
        ensures
            r == (self.is_enabled() && body_len <= self.max_entry() && !forbids_store(
                header_map_contents(*headers),
            )),
    {
        if !self.enabled {
            return false;
        }
        if body_len > self.max_entry_size {
            return false;
        }
        proof {
            reveal_strlit("cache-control");
        }
        match header_text_of(headers, "cache-control") {
            Some(cc) => !(mentions(&cc, "no-store") || mentions(&cc, "private")),
            None => true,
        }
    }
}

/// How the response store is set up.
#[derive(Debug, Clone, Copy, PartialEq, Eq, Structural)]
pub struct StoreSettings {
    /// Most entries held.
    pub max_capacity: u64,
    /// Seconds an entry lives.
    pub time_to_live_secs: u64,
    /// Seconds an unread entry lives.
    pub time_to_idle_secs: u64,
}

/// The response store for a configuration: none when caching is off, else
/// the configured number of entries, each kept an hour and dropped after
/// ten minutes unread.
pub fn store_settings(config: &CacheConfig) -> (r: Option<StoreSettings>)
    ensures
        r is Some <==> config.enabled,
        r matches Some(s) ==> s.max_capacity == config.max_size && s.time_to_live_secs == 3600
            && s.time_to_idle_secs == 600,
{
    if config.enabled {
        Some(StoreSettings { max_capacity: config.max_size, time_to_live_secs: 3600, time_to_idle_secs: 600 })
    } else {
        None
    }
}

} // verus!
