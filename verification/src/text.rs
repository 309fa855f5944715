//! Character-level helpers on strings, with their specifications.

use vstd::prelude::*;

verus! {

/// Appends one character to a string.
#[verifier::external_body]
pub(crate) fn push_char(s: &mut String, c: char)
    ensures
        final(s)@ == old(s)@.push(c),
{
    s.push(c)
}

/// The characters of a string, in order.
pub fn chars_of(s: &str) -> (r: Vec<char>)
    ensures
        r@ == s@,
{
    let mut r: Vec<char> = Vec::new();
    for c in it: s.chars()
        invariant
            r@ == it.seq().take(it.index()),
            it.seq() == s@,
    {
        r.push(c);
        proof {
            assert(r@ =~= it.seq().take(it.index() + 1));
        }
    }
    r
}

/// A string holding the given characters.
pub fn string_from_chars(v: &Vec<char>) -> (r: String)
    ensures
        r@ == v@,
{
    let mut r = String::new();
    let mut i: usize = 0;
    while i < v.len()
        invariant
            i <= v@.len(),
            r@ == v@.take(i as int),
        decreases v@.len() - i,
    {
        push_char(&mut r, v[i]);
        i = i + 1;
        proof {
            assert(r@ =~= v@.take(i as int));
        }
    }
    proof {
        assert(v@.take(v@.len() as int) =~= v@);
    }
    r
}

// ---------------------------------------------------------------------------
// ASCII case
// ---------------------------------------------------------------------------

pub open spec fn is_ascii_upper(c: char) -> bool {
    'A' <= c <= 'Z'
}

pub open spec fn lower_char(c: char) -> char {
    if is_ascii_upper(c) {
        ((c as u32) + 32) as char
    } else {
        c
    }
}

pub open spec fn upper_char(c: char) -> char {
    if 'a' <= c <= 'z' {
        ((c as u32) - 32) as char
    } else {
        c
    }
}

/// ASCII lowercase: `A`..`Z` become `a`..`z`, every other character stays.
pub open spec fn ascii_lower(s: Seq<char>) -> Seq<char> {
    s.map_values(|c: char| lower_char(c))
}

/// ASCII uppercase: `a`..`z` become `A`..`Z`, every other character stays.
pub open spec fn ascii_upper(s: Seq<char>) -> Seq<char> {
    s.map_values(|c: char| upper_char(c))
}

pub fn lower_char_exec(c: char) -> (r: char)
    ensures
        r == lower_char(c),
{
    if 'A' <= c && c <= 'Z' {
        let b: u8 = (c as u8) + 32;
        b as char
    } else {
        c
    }
}

/// ASCII lowercase of a character sequence.
pub fn to_ascii_lower(s: &Vec<char>) -> (r: Vec<char>)
    ensures
        r@ == ascii_lower(s@),
{
    let mut r: Vec<char> = Vec::new();
    let mut i: usize = 0;
    while i < s.len()
        invariant
            i <= s@.len(),
            r@ == ascii_lower(s@.take(i as int)),
        decreases s@.len() - i,
    {
        let c = lower_char_exec(s[i]);
        r.push(c);
        i = i + 1;
        proof {
            assert(r@ =~= ascii_lower(s@.take(i as int)));
        }
    }
    proof {
        assert(s@.take(s@.len() as int) =~= s@);
    }
    r
}

// ---------------------------------------------------------------------------
// Searching
// ---------------------------------------------------------------------------

/// `needle` occurs in `hay` at position `i`.
pub open spec fn occurs_at(hay: Seq<char>, needle: Seq<char>, i: int) -> bool {
    0 <= i && i + needle.len() <= hay.len() && hay.subrange(i, i + needle.len()) == needle
}

/// `needle` occurs somewhere in `hay`.
pub open spec fn contains(hay: Seq<char>, needle: Seq<char>) -> bool {
    exists|i: int| occurs_at(hay, needle, i)
}

pub open spec fn starts_with(s: Seq<char>, prefix: Seq<char>) -> bool {
    prefix.len() <= s.len() && s.take(prefix.len() as int) == prefix
}

pub open spec fn ends_with(s: Seq<char>, suffix: Seq<char>) -> bool {
    suffix.len() <= s.len() && s.skip(s.len() - suffix.len()) == suffix
}

fn matches_at(hay: &Vec<char>, needle: &Vec<char>, i: usize) -> (r: bool)
    requires
        i + needle@.len() <= hay@.len(),
    ensures
        r == occurs_at(hay@, needle@, i as int),
{
    let n = needle.len();
    let hl = hay.len();
    let mut j: usize = 0;
    while j < n
        invariant
            j <= needle@.len(),
            n == needle@.len(),
            hl == hay@.len(),
            i + needle@.len() <= hay@.len(),
            forall|k: int| 0 <= k < j ==> hay@[i + k] == needle@[k],
        decreases needle@.len() - j,
    {
        if hay[i + j] != needle[j] {
            proof {
                assert(hay@.subrange(i as int, i + needle@.len())[j as int] != needle@[j as int]);
            }
            return false;
        }
        j = j + 1;
    }
    proof {
        assert(hay@.subrange(i as int, i + needle@.len()) =~= needle@);
    }
    true
}

/// Whether `needle` occurs in `hay`.
pub fn contains_chars(hay: &Vec<char>, needle: &Vec<char>) -> (r: bool)
    ensures
        r == contains(hay@, needle@),
{
    if needle.len() > hay.len() {
        return false;
    }
    let last = hay.len() - needle.len();
    let mut i: usize = 0;
    loop
        invariant
            last == hay@.len() - needle@.len(),
            i <= last,
            forall|k: int| 0 <= k < i ==> !occurs_at(hay@, needle@, k),
        decreases last - i,
    {
        if matches_at(hay, needle, i) {
            return true;
        }
        if i == last {
            return false;
        }
        i = i + 1;
    }
}

/// Whether `s` starts with `prefix`.
pub fn starts_with_chars(s: &Vec<char>, prefix: &Vec<char>) -> (r: bool)
    ensures
        r == starts_with(s@, prefix@),
{
    if prefix.len() > s.len() {
        return false;
    }
    let r = matches_at(s, prefix, 0);
    proof {
        assert(s@.subrange(0, prefix@.len() as int) =~= s@.take(prefix@.len() as int));
    }
    r
}

/// Whether `s` ends with `suffix`.
pub fn ends_with_chars(s: &Vec<char>, suffix: &Vec<char>) -> (r: bool)
    ensures
        r == ends_with(s@, suffix@),
{
    if suffix.len() > s.len() {
        return false;
    }
    let r = matches_at(s, suffix, s.len() - suffix.len());
    proof {
        assert(s@.subrange(s@.len() - suffix@.len(), s@.len() as int) =~= s@.skip(s@.len() - suffix@.len()));
    }
    r
}

/// Whether two character sequences are equal.
pub fn chars_eq(a: &Vec<char>, b: &Vec<char>) -> (r: bool)
    ensures
        r == (a@ == b@),
{
    if a.len() != b.len() {
        return false;
    }
    let r = matches_at(a, b, 0);
    proof {
        assert(a@.subrange(0, b@.len() as int) =~= a@);
    }
    r
}

/// `a` followed by `b`.
pub fn concat_str(a: &str, b: &str) -> (r: String)
    ensures
        r@ == a@ + b@,
{
    let mut r = a.to_owned();
    r.append(b);
    r
}

/// Whether the first character of `s` is `c`.
pub fn starts_with_char(s: &str, c: char) -> (r: bool)
    ensures
        r == (s@.len() > 0 && s@[0] == c),
{
    if s.unicode_len() == 0 {
        false
    } else {
        s.get_char(0) == c
    }
}

// ---------------------------------------------------------------------------
// Whitespace trimming and comma-separated lists
// ---------------------------------------------------------------------------

/// Unicode `White_Space` (what `char::is_whitespace` and `str::trim` use).
pub open spec fn is_unicode_whitespace(c: char) -> bool {
    let u = c as u32;
    ||| (0x09 <= u <= 0x0D)
    ||| u == 0x20
    ||| u == 0x85
    ||| u == 0xA0
    ||| u == 0x1680
    ||| (0x2000 <= u <= 0x200A)
    ||| u == 0x2028
    ||| u == 0x2029
    ||| u == 0x202F
    ||| u == 0x205F
    ||| u == 0x3000
}

pub fn is_unicode_whitespace_exec(c: char) -> (r: bool)
    ensures
        r == is_unicode_whitespace(c),
{
    let u = c as u32;
    (0x09 <= u && u <= 0x0D) || u == 0x20 || u == 0x85 || u == 0xA0 || u == 0x1680 || (0x2000 <= u
        && u <= 0x200A) || u == 0x2028 || u == 0x2029 || u == 0x202F || u == 0x205F || u == 0x3000
}

/// Number of whitespace characters at the start of `s`.
pub open spec fn leading_ws(s: Seq<char>) -> nat
    decreases s.len(),
{
    if s.len() > 0 && is_unicode_whitespace(s[0]) {
        1 + leading_ws(s.drop_first())
    } else {
        0
    }
}

/// Number of whitespace characters at the end of `s`.
pub open spec fn trailing_ws(s: Seq<char>) -> nat
    decreases s.len(),
{
    if s.len() > 0 && is_unicode_whitespace(s.last()) {
        1 + trailing_ws(s.drop_last())
    } else {
        0
    }
}

/// `s` without leading and trailing whitespace.
pub open spec fn trim(s: Seq<char>) -> Seq<char> {
    let lead = leading_ws(s);
    if lead == s.len() {
        Seq::empty()
    } else {
        s.subrange(lead as int, s.len() - trailing_ws(s))
    }
}

proof fn lemma_leading_ws(s: Seq<char>, k: int)
    requires
        0 <= k <= s.len(),
        forall|j: int| 0 <= j < k ==> is_unicode_whitespace(#[trigger] s[j]),
        k == s.len() || !is_unicode_whitespace(s[k]),
    ensures
        leading_ws(s) == k,
    decreases k,
{
    if k > 0 {
        assert forall|j: int| 0 <= j < k - 1 implies is_unicode_whitespace(
            #[trigger] s.drop_first()[j],
        ) by {
            assert(s.drop_first()[j] == s[j + 1]);
        }
        lemma_leading_ws(s.drop_first(), k - 1);
    }
}

proof fn lemma_trailing_ws(s: Seq<char>, k: int)
    requires
        0 <= k <= s.len(),
        forall|j: int| s.len() - k <= j < s.len() ==> is_unicode_whitespace(#[trigger] s[j]),
        k == s.len() || !is_unicode_whitespace(s[s.len() - k - 1]),
    ensures
        trailing_ws(s) == k,
    decreases k,
{
    if k > 0 {
        assert forall|j: int| s.drop_last().len() - (k - 1) <= j < s.drop_last().len() implies is_unicode_whitespace(
            #[trigger] s.drop_last()[j],
        ) by {
            assert(s.drop_last()[j] == s[j]);
        }
        lemma_trailing_ws(s.drop_last(), k - 1);
    }
}

/// `s` without leading and trailing whitespace.
pub fn trim_chars(s: &Vec<char>) -> (r: Vec<char>)
    ensures
        r@ == trim(s@),
{
    let n = s.len();
    let mut lo: usize = 0;
    while lo < n && is_unicode_whitespace_exec(s[lo])
        invariant
            lo <= n,
            n == s@.len(),
            forall|j: int| 0 <= j < lo ==> is_unicode_whitespace(#[trigger] s@[j]),
        decreases n - lo,
    {
        lo = lo + 1;
    }
    proof {
        lemma_leading_ws(s@, lo as int);
    }
    if lo == n {
        return Vec::new();
    }
    let mut hi: usize = n;
    while hi > lo && is_unicode_whitespace_exec(s[hi - 1])
        invariant
            lo < n,
            lo <= hi <= n,
            n == s@.len(),
            !is_unicode_whitespace(s@[lo as int]),
            forall|j: int| hi <= j < n ==> is_unicode_whitespace(#[trigger] s@[j]),
        decreases hi,
    {
        hi = hi - 1;
    }
    proof {
        lemma_trailing_ws(s@, n - hi);
    }
    let mut r: Vec<char> = Vec::new();
    let mut i: usize = lo;
    while i < hi
        invariant
            lo <= i <= hi <= n,
            n == s@.len(),
            r@ == s@.subrange(lo as int, i as int),
        decreases hi - i,
    {
        r.push(s[i]);
        i = i + 1;
        proof {
            assert(r@ =~= s@.subrange(lo as int, i as int));
        }
    }
    r
}

/// The pieces of `s` between commas, from left to right (a text with `k`
/// commas has `k + 1` pieces).
pub open spec fn split_commas(s: Seq<char>) -> Seq<Seq<char>>
    decreases s.len(),
{
    if s.len() == 0 {
        seq![Seq::<char>::empty()]
    } else {
        let before = split_commas(s.drop_last());
        if s.last() == ',' {
            before.push(Seq::empty())
        } else {
            before.update(before.len() - 1, before.last().push(s.last()))
        }
    }
}

proof fn lemma_split_nonempty(s: Seq<char>)
    ensures
        split_commas(s).len() >= 1,
    decreases s.len(),
{
    if s.len() > 0 {
        lemma_split_nonempty(s.drop_last());
    }
}

/// The trimmed pieces that are not empty, in order.
pub open spec fn nonempty_trimmed(pieces: Seq<Seq<char>>) -> Seq<Seq<char>>
    decreases pieces.len(),
{
    if pieces.len() == 0 {
        Seq::empty()
    } else {
        let before = nonempty_trimmed(pieces.drop_last());
        let t = trim(pieces.last());
        if t.len() > 0 {
            before.push(t)
        } else {
            before
        }
    }
}

/// The entries of a comma-separated list: split at commas, trimmed, empty
/// entries dropped.
pub open spec fn list_entries(s: Seq<char>) -> Seq<Seq<char>> {
    nonempty_trimmed(split_commas(s))
}

/// A clean list entry: not empty, no whitespace at either end, no comma.
pub open spec fn clean_entry(e: Seq<char>) -> bool {
    &&& e.len() > 0
    &&& !is_unicode_whitespace(e[0])
    &&& !is_unicode_whitespace(e.last())
    &&& !e.contains(',')
}

proof fn lemma_leading_stop(s: Seq<char>)
    ensures
        leading_ws(s) <= s.len(),
        forall|j: int| 0 <= j < leading_ws(s) ==> is_unicode_whitespace(#[trigger] s[j]),
        leading_ws(s) < s.len() ==> !is_unicode_whitespace(s[leading_ws(s) as int]),
    decreases s.len(),
{
    if s.len() > 0 && is_unicode_whitespace(s[0]) {
        lemma_leading_stop(s.drop_first());
        assert forall|j: int| 0 <= j < leading_ws(s) implies is_unicode_whitespace(#[trigger] s[j]) by {
            if j > 0 {
                assert(s[j] == s.drop_first()[j - 1]);
            }
        }
    }
}

proof fn lemma_trailing_stop(s: Seq<char>)
    ensures
        trailing_ws(s) <= s.len(),
        forall|j: int| s.len() - trailing_ws(s) <= j < s.len() ==> is_unicode_whitespace(#[trigger] s[j]),
        trailing_ws(s) < s.len() ==> !is_unicode_whitespace(s[s.len() - trailing_ws(s) - 1]),
    decreases s.len(),
{
    if s.len() > 0 && is_unicode_whitespace(s.last()) {
        lemma_trailing_stop(s.drop_last());
        assert forall|j: int| s.len() - trailing_ws(s) <= j < s.len() implies is_unicode_whitespace(
            #[trigger] s[j],
        ) by {
            if j < s.len() - 1 {
                assert(s[j] == s.drop_last()[j]);
            }
        }
    }
}

/// A trimmed text that is not empty starts and ends with a character that
/// is not whitespace, and holds only characters of the text.
proof fn lemma_trim_clean(s: Seq<char>)
    requires
        trim(s).len() > 0,
    ensures
        !is_unicode_whitespace(trim(s)[0]),
        !is_unicode_whitespace(trim(s).last()),
        forall|c: char| trim(s).contains(c) ==> s.contains(c),
{
    lemma_leading_stop(s);
    lemma_trailing_stop(s);
    let lead = leading_ws(s) as int;
    let tail = trailing_ws(s) as int;
    assert(lead < s.len());
    if lead >= s.len() - tail {
        assert(is_unicode_whitespace(s[lead]));
    }
    assert(trim(s) == s.subrange(lead, s.len() - tail));
    assert(trim(s)[0] == s[lead]);
    assert(trim(s).last() == s[s.len() - tail - 1]);
    assert forall|c: char| trim(s).contains(c) implies s.contains(c) by {
        let k = choose|k: int| 0 <= k < trim(s).len() && trim(s)[k] == c;
        assert(s[lead + k] == c);
    }
}

proof fn lemma_split_no_comma(s: Seq<char>)
    ensures
        forall|i: int| 0 <= i < split_commas(s).len() ==> !(#[trigger] split_commas(s)[i]).contains(','),
    decreases s.len(),
{
    if s.len() > 0 {
        lemma_split_no_comma(s.drop_last());
        lemma_split_nonempty(s.drop_last());
        let before = split_commas(s.drop_last());
        if s.last() != ',' {
            let p = before.last().push(s.last());
            assert(!p.contains(',')) by {
                if p.contains(',') {
                    let k = choose|k: int| 0 <= k < p.len() && p[k] == ',';
                    if k < p.len() - 1 {
                        assert(before.last()[k] == ',');
                        assert(before.last().contains(','));
                        assert(before[before.len() - 1] == before.last());
                    }
                }
            }
            assert forall|i: int| 0 <= i < split_commas(s).len() implies !(
            #[trigger] split_commas(s)[i]).contains(',') by {
                if i < before.len() - 1 {
                    assert(split_commas(s)[i] == before[i]);
                }
            }
        } else {
            assert forall|i: int| 0 <= i < split_commas(s).len() implies !(
            #[trigger] split_commas(s)[i]).contains(',') by {
                if i < before.len() {
                    assert(split_commas(s)[i] == before[i]);
                } else {
                    assert(split_commas(s)[i] =~= Seq::<char>::empty());
                }
            }
        }
    }
}

proof fn lemma_nonempty_trimmed_clean(pieces: Seq<Seq<char>>)
    requires
        forall|i: int| 0 <= i < pieces.len() ==> !(#[trigger] pieces[i]).contains(','),
    ensures
        forall|i: int| 0 <= i < nonempty_trimmed(pieces).len() ==> clean_entry(
            #[trigger] nonempty_trimmed(pieces)[i],
        ),
    decreases pieces.len(),
{
    if pieces.len() > 0 {
        assert forall|i: int| 0 <= i < pieces.drop_last().len() implies !(
        #[trigger] pieces.drop_last()[i]).contains(',') by {
            assert(pieces.drop_last()[i] == pieces[i]);
        }
        lemma_nonempty_trimmed_clean(pieces.drop_last());
        let before = nonempty_trimmed(pieces.drop_last());
        let t = trim(pieces.last());
        if t.len() > 0 {
            lemma_trim_clean(pieces.last());
            assert(pieces[pieces.len() - 1] == pieces.last());
            assert(!t.contains(','));
            assert(clean_entry(t));
            assert forall|i: int| 0 <= i < nonempty_trimmed(pieces).len() implies clean_entry(
                #[trigger] nonempty_trimmed(pieces)[i],
            ) by {
                assert(nonempty_trimmed(pieces) == before.push(t));
                if i < before.len() {
                    assert(nonempty_trimmed(pieces)[i] == before[i]);
                }
            }
        } else {
            assert(nonempty_trimmed(pieces) == before);
        }
    }
}

/// Every entry of a parsed list is clean: not empty, without whitespace at
/// either end, and without a comma.
pub proof fn law_list_entries_clean(s: Seq<char>)
    ensures
        forall|i: int| 0 <= i < list_entries(s).len() ==> clean_entry(#[trigger] list_entries(s)[i]),
{
    lemma_split_no_comma(s);
    lemma_nonempty_trimmed_clean(split_commas(s));
}

/// The entries of a comma-separated list.
pub fn parse_list_text(s: &str) -> (r: Vec<String>)
    ensures
        r@.map_values(|e: String| e@) == list_entries(s@),
{
    let cs = chars_of(s);
    let mut out: Vec<String> = Vec::new();
    let mut piece: Vec<char> = Vec::new();
    let mut i: usize = 0;
    proof {
        assert(cs@.take(0) =~= Seq::<char>::empty());
    }
    while i < cs.len()
        invariant
            i <= cs@.len(),
            split_commas(cs@.take(i as int)).len() >= 1,
            piece@ == split_commas(cs@.take(i as int)).last(),
            out@.map_values(|e: String| e@) == nonempty_trimmed(
                split_commas(cs@.take(i as int)).drop_last(),
            ),
        decreases cs@.len() - i,
    {
        let ghost pre = cs@.take(i as int);
        let ghost post = cs@.take(i + 1);
        proof {
            assert(post.drop_last() =~= pre);
            lemma_split_nonempty(pre);
        }
        if cs[i] == ',' {
            let t = trim_chars(&piece);
            let ghost before = out@;
            if t.len() > 0 {
                out.push(string_from_chars(&t));
                proof {
                    assert(out@.map_values(|e: String| e@) =~= before.map_values(|e: String| e@).push(t@));
                }
            }
            piece = Vec::new();
            proof {
                assert(split_commas(post) == split_commas(pre).push(Seq::empty()));
                assert(split_commas(post).drop_last() =~= split_commas(pre));
                assert(split_commas(pre).drop_last() =~= split_commas(pre).drop_last());
                assert(nonempty_trimmed(split_commas(pre)) == if trim(split_commas(pre).last()).len() > 0 {
                    nonempty_trimmed(split_commas(pre).drop_last()).push(trim(split_commas(pre).last()))
                } else {
                    nonempty_trimmed(split_commas(pre).drop_last())
                });
                assert(piece@ =~= split_commas(post).last());
            }
        } else {
            piece.push(cs[i]);
            proof {
                assert(split_commas(post).drop_last() =~= split_commas(pre).drop_last());
                assert(piece@ =~= split_commas(post).last());
            }
        }
        i = i + 1;
    }
    proof {
        assert(cs@.take(cs@.len() as int) =~= cs@);
    }
    let t = trim_chars(&piece);
    let ghost before = out@;
    if t.len() > 0 {
        out.push(string_from_chars(&t));
        proof {
            assert(out@.map_values(|e: String| e@) =~= before.map_values(|e: String| e@).push(t@));
        }
    }
    proof {
        let sp = split_commas(s@);
        lemma_split_nonempty(s@);
        assert(sp.drop_last().push(sp.last()) =~= sp);
        assert(nonempty_trimmed(sp) == if trim(sp.last()).len() > 0 {
            nonempty_trimmed(sp.drop_last()).push(trim(sp.last()))
        } else {
            nonempty_trimmed(sp.drop_last())
        }) by {
            assert(sp.drop_last() =~= sp.drop_last());
        }
    }
    out
}

// ---------------------------------------------------------------------------
// Decimal numbers
// ---------------------------------------------------------------------------

/// The decimal digit character of a value below ten.
pub open spec fn digit_char(d: nat) -> char {
    (48 + d) as char
}

/// The decimal text of a number, without leading zeros.
pub open spec fn decimal(n: nat) -> Seq<char>
    decreases n,
{
    if n < 10 {
        seq![digit_char(n)]
    } else {
        decimal(n / 10).push(digit_char(n % 10))
    }
}

fn decimal_chars(n: u64) -> (r: Vec<char>)
    ensures
        r@ == decimal(n as nat),
    decreases n,
{
    let d: u8 = (n % 10) as u8;
    let c: char = (48u8 + d) as char;
    if n < 10 {
        let mut v: Vec<char> = Vec::new();
        v.push(c);
        assert(v@ =~= decimal(n as nat));
        v
    } else {
        let mut v = decimal_chars(n / 10);
        v.push(c);
        v
    }
}

/// The decimal text of a number.
pub fn decimal_text(n: u64) -> (r: String)
    ensures
        r@ == decimal(n as nat),
{
    string_from_chars(&decimal_chars(n))
}

} // verus!
