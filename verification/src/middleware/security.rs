//! Security response headers (HSTS and the configured extra headers).

use vstd::prelude::*;
use http::header::HeaderMap;

use crate::config::SecurityConfig;
use crate::headers::{
    has_room, header_insert, header_map_contents, known_name, parse_header_name,
    parse_header_value, valid_header_name, valid_header_value,
};
use crate::proxy::ascii_bytes;
use crate::text::ascii_lower;

verus! {

/// The HSTS policy sent: one year, subdomains included.
pub open spec fn hsts_value() -> Seq<char> {
    "max-age=31536000; includeSubDomains"@
}

/// The headers after the configured `(name, value)` pairs are applied in
/// order; a pair whose name or value is not valid is skipped.
pub open spec fn with_pairs(
    m: Map<Seq<char>, Seq<Seq<u8>>>,
    pairs: Seq<(Seq<char>, Seq<char>)>,
) -> Map<Seq<char>, Seq<Seq<u8>>>
    decreases pairs.len(),
{
    if pairs.len() == 0 {
        m
    } else {
        let before = with_pairs(m, pairs.drop_last());
        let (name, value) = pairs.last();
        let bytes = vstd::utf8::encode_utf8(value);
        if valid_header_name(name) && valid_header_value(bytes) {
            before.insert(ascii_lower(name), seq![bytes])
        } else {
            before
        }
    }
}

/// The headers after the security headers are added.
pub open spec fn secured_headers(
    m: Map<Seq<char>, Seq<Seq<u8>>>,
    hsts: bool,
    pairs: Seq<(Seq<char>, Seq<char>)>,
) -> Map<Seq<char>, Seq<Seq<u8>>> {
    let m0 = if hsts {
        m.insert("strict-transport-security"@, seq![ascii_bytes(hsts_value())])
    } else {
        m
    };
    with_pairs(m0, pairs)
}

proof fn lemma_with_pairs_room(
    m: Map<Seq<char>, Seq<Seq<u8>>>,
    pairs: Seq<(Seq<char>, Seq<char>)>,
    extra: nat,
)
    requires
        has_room(m, pairs.len() + extra),
    ensures
        has_room(with_pairs(m, pairs), extra),
    decreases pairs.len(),
{
    if pairs.len() > 0 {
        lemma_with_pairs_room(m, pairs.drop_last(), extra + 1);
    }
}

/// The headers the configured pairs set on their own.
pub open spec fn pair_headers(pairs: Seq<(Seq<char>, Seq<char>)>) -> Map<Seq<char>, Seq<Seq<u8>>> {
    with_pairs(Map::empty(), pairs)
}

proof fn lemma_with_pairs_overlay(m: Map<Seq<char>, Seq<Seq<u8>>>, pairs: Seq<(Seq<char>, Seq<char>)>)
    ensures
        with_pairs(m, pairs) == m.union_prefer_right(pair_headers(pairs)),
    decreases pairs.len(),
{
    if pairs.len() == 0 {
        assert(m.union_prefer_right(pair_headers(pairs)) =~= m);
    } else {
        lemma_with_pairs_overlay(m, pairs.drop_last());
        lemma_with_pairs_overlay(Map::empty(), pairs.drop_last());
        assert(Map::<Seq<char>, Seq<Seq<u8>>>::empty().union_prefer_right(pair_headers(pairs.drop_last()))
            =~= pair_headers(pairs.drop_last()));
        assert(with_pairs(m, pairs) =~= m.union_prefer_right(pair_headers(pairs)));
    }
}

/// Adding the security headers a second time changes nothing.
pub proof fn law_security_idempotent(
    m: Map<Seq<char>, Seq<Seq<u8>>>,
    hsts: bool,
    pairs: Seq<(Seq<char>, Seq<char>)>,
)
    ensures
        secured_headers(secured_headers(m, hsts, pairs), hsts, pairs) == secured_headers(m, hsts, pairs),
{
    let once = secured_headers(m, hsts, pairs);
    let m0 = if hsts {
        m.insert("strict-transport-security"@, seq![ascii_bytes(hsts_value())])
    } else {
        m
    };
    let once0 = if hsts {
        once.insert("strict-transport-security"@, seq![ascii_bytes(hsts_value())])
    } else {
        once
    };
    lemma_with_pairs_overlay(m0, pairs);
    lemma_with_pairs_overlay(once0, pairs);
    assert(once0.union_prefer_right(pair_headers(pairs)) =~= once);
}

/// Headers of the response that are neither HSTS (when enabled) nor named
/// by a configured pair are left as they were.
pub proof fn law_security_keeps_other_headers(
    m: Map<Seq<char>, Seq<Seq<u8>>>,
    hsts: bool,
    pairs: Seq<(Seq<char>, Seq<char>)>,
    name: Seq<char>,
)
    requires
        !pair_headers(pairs).dom().contains(name),
        hsts ==> name != "strict-transport-security"@,
    ensures
        secured_headers(m, hsts, pairs).dom().contains(name) == m.dom().contains(name),
        m.dom().contains(name) ==> secured_headers(m, hsts, pairs)[name] == m[name],
{
    let m0 = if hsts {
        m.insert("strict-transport-security"@, seq![ascii_bytes(hsts_value())])
    } else {
        m
    };
    lemma_with_pairs_overlay(m0, pairs);
}

/// With HSTS on, responses carry the one-year policy unless a configured
/// pair sets that header itself.
pub proof fn law_hsts_sent(m: Map<Seq<char>, Seq<Seq<u8>>>, pairs: Seq<(Seq<char>, Seq<char>)>)
    requires
        !pair_headers(pairs).dom().contains("strict-transport-security"@),
    ensures
        secured_headers(m, true, pairs)["strict-transport-security"@] == seq![
            ascii_bytes(hsts_value()),
        ],
{
    let m0 = m.insert("strict-transport-security"@, seq![ascii_bytes(hsts_value())]);
    lemma_with_pairs_overlay(m0, pairs);
}

/// The HSTS policy is one year with subdomains included, sent as the
/// bytes of `max-age=31536000; includeSubDomains`.
pub proof fn law_hsts_policy(m: Map<Seq<char>, Seq<Seq<u8>>>, pairs: Seq<(Seq<char>, Seq<char>)>)
    requires
        !pair_headers(pairs).dom().contains("strict-transport-security"@),
    ensures
        secured_headers(m, true, pairs)["strict-transport-security"@] == seq![
            crate::proxy::ascii_bytes("max-age=31536000; includeSubDomains"@),
        ],
        !m.dom().contains("strict-transport-security"@) ==> !secured_headers(m, false, pairs).dom().contains(
            "strict-transport-security"@,
        ),
{
    law_hsts_sent(m, pairs);
    law_security_keeps_other_headers(m, false, pairs, "strict-transport-security"@);
}

/// The last configured pair with a valid name and value sets its header
/// (its name lower-cased) to exactly its value, whatever came before.
pub proof fn law_last_pair_wins(
    m: Map<Seq<char>, Seq<Seq<u8>>>,
    hsts: bool,
    pairs: Seq<(Seq<char>, Seq<char>)>,
)
    requires
        pairs.len() > 0,
        valid_header_name(pairs.last().0),
        valid_header_value(vstd::utf8::encode_utf8(pairs.last().1)),
    ensures
        secured_headers(m, hsts, pairs).dom().contains(ascii_lower(pairs.last().0)),
        secured_headers(m, hsts, pairs)[ascii_lower(pairs.last().0)] == seq![
            vstd::utf8::encode_utf8(pairs.last().1),
        ],
{
}

/// Adds security headers to responses.
pub struct SecurityMiddleware {
    hsts_enabled: bool,
    headers: Vec<(String, String)>,
}

impl SecurityMiddleware {
    pub closed spec fn hsts(&self) -> bool {
        self.hsts_enabled
    }

    /// The configured extra headers, as text.
    pub closed spec fn pairs(&self) -> Seq<(Seq<char>, Seq<char>)> {
        self.headers@.map_values(|p: (String, String)| (p.0@, p.1@))
    }

    /// A middleware with the configured HSTS switch and extra headers.
    pub fn new(config: &SecurityConfig) -> (r: Self)
        ensures
            r.hsts() == config.hsts_enabled,
            r.pairs() == config.headers@.map_values(|p: (String, String)| (p.0@, p.1@)),
    {
        let mut headers: Vec<(String, String)> = Vec::new();
        let mut i: usize = 0;
        while i < config.headers.len()
            invariant
                i <= config.headers@.len(),
                headers@.len() == i,
                forall|j: int|
                    0 <= j < i ==> (#[trigger] headers@[j]).0@ == config.headers@[j].0@
                        && headers@[j].1@ == config.headers@[j].1@,
            decreases config.headers@.len() - i,
        {
            let name = config.headers[i].0.clone();
            let value = config.headers[i].1.clone();
            headers.push((name, value));
            i = i + 1;
        }
        let r = Self { hsts_enabled: config.hsts_enabled, headers };
        assert(r.pairs() =~= config.headers@.map_values(|p: (String, String)| (p.0@, p.1@)));
        r
    }

    /// The number of configured extra headers.
    pub fn headers_len(&self) -> (r: usize)
        ensures
            r == self.pairs().len(),
    {
        self.headers.len()
    }

    /// Adds the HSTS header (when enabled) and the configured headers,
    /// replacing any value the response had under those names.
    pub fn add_headers(&self, headers: &mut HeaderMap)
        requires
            has_room(header_map_contents(*old(headers)), self.pairs().len() + 1),
        ensures
            header_map_contents(*final(headers)) == secured_headers(
                header_map_contents(*old(headers)),
                self.hsts(),
                self.pairs(),
            ),
    {
        let ghost m = header_map_contents(*headers);
        if self.hsts_enabled {
            proof {
                reveal_strlit("strict-transport-security");
                reveal_strlit("max-age=31536000; includeSubDomains");
                crate::proxy::lemma_visible_text_value(hsts_value());
            }
            match parse_header_value("max-age=31536000; includeSubDomains") {
                Some(value) => {
                    header_insert(headers, known_name("strict-transport-security"), value);
                },
                None => {},
            }
        }
        let ghost m0 = header_map_contents(*headers);
        assert(m0 == if self.hsts_enabled {
            m.insert("strict-transport-security"@, seq![ascii_bytes(hsts_value())])
        } else {
            m
        });
        proof {
            lemma_with_pairs_room(m0, Seq::empty(), self.pairs().len());
            assert(self.pairs().take(0) =~= Seq::<(Seq<char>, Seq<char>)>::empty());
        }
        let mut i: usize = 0;
        while i < self.headers.len()
            invariant
                i <= self.headers@.len(),
                has_room(m0, self.pairs().len()),
                header_map_contents(*headers) == with_pairs(m0, self.pairs().take(i as int)),
            decreases self.headers@.len() - i,
        {
            proof {
                assert(self.pairs().take(i + 1).drop_last() =~= self.pairs().take(i as int));
                lemma_with_pairs_room(m0, self.pairs().take(i as int), (self.pairs().len() - i) as nat);
            }
            let name = parse_header_name(self.headers[i].0.as_str());
            let value = parse_header_value(self.headers[i].1.as_str());
            match (name, value) {
                (Some(n), Some(v)) => {
                    header_insert(headers, n, v);
                },
                _ => {},
            }
            i = i + 1;
        }
        proof {
            assert(self.pairs().take(self.headers@.len() as int) =~= self.pairs());
        }
    }
}

} // verus!
