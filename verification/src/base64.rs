//! Standard base64 encoding (RFC 4648 alphabet, with `=` padding).

use vstd::prelude::*;
use crate::text::push_char;

verus! {

/// The character of the base64 alphabet for a 6-bit value.
pub open spec fn b64_char(i: int) -> char {
    if i < 26 {
        (65 + i) as char
    } else if i < 52 {
        (97 + (i - 26)) as char
    } else if i < 62 {
        (48 + (i - 52)) as char
    } else if i == 62 {
        '+'
    } else {
        '/'
    }
}

/// The four output characters for a group of one to three input bytes.
pub open spec fn b64_group(chunk: Seq<u8>) -> Seq<char> {
    let b0 = chunk[0];
    let b1 = if chunk.len() > 1 { chunk[1] } else { 0u8 };
    let b2 = if chunk.len() > 2 { chunk[2] } else { 0u8 };
    seq![
        b64_char((b0 >> 2u8) as int),
        b64_char((((b0 & 3u8) << 4u8) | (b1 >> 4u8)) as int),
        if chunk.len() > 1 { b64_char((((b1 & 15u8) << 2u8) | (b2 >> 6u8)) as int) } else { '=' },
        if chunk.len() > 2 { b64_char((b2 & 63u8) as int) } else { '=' },
    ]
}

/// The encoding of the first `n` groups of three bytes (the last one may be short).
pub open spec fn b64_groups(data: Seq<u8>, n: nat) -> Seq<char>
    decreases n,
{
    if n == 0 {
        Seq::empty()
    } else {
        let start: int = 3 * (n - 1);
        let end: int = if 3 * n <= data.len() { 3 * n as int } else { data.len() as int };
        b64_groups(data, (n - 1) as nat) + b64_group(data.subrange(start, end))
    }
}

/// Number of output groups: one per started group of three input bytes.
pub open spec fn b64_group_count(len: nat) -> nat {
    (len + 2) / 3
}

/// Base64 encoding of a byte sequence.
pub open spec fn base64(data: Seq<u8>) -> Seq<char> {
    b64_groups(data, b64_group_count(data.len()))
}

proof fn lemma_b64_groups_len(data: Seq<u8>, n: nat)
    ensures
        b64_groups(data, n).len() == 4 * n,
    decreases n,
{
    if n > 0 {
        lemma_b64_groups_len(data, (n - 1) as nat);
    }
}

/// The encoding of `n` bytes has `4 * ceil(n / 3)` characters; no bytes
/// encode to the empty text.
pub proof fn law_base64_length(data: Seq<u8>)
    ensures
        base64(data).len() == 4 * b64_group_count(data.len()),
        base64(data).len() == 4 * ((data.len() + 2) / 3),
        data.len() == 0 ==> base64(data) == Seq::<char>::empty(),
{
    lemma_b64_groups_len(data, b64_group_count(data.len()));
}

/// A character of the base64 alphabet.
pub open spec fn is_b64_alphabet(c: char) -> bool {
    ('A' <= c <= 'Z') || ('a' <= c <= 'z') || ('0' <= c <= '9') || c == '+' || c == '/'
}

proof fn lemma_b64_char_alphabet(i: int)
    requires
        0 <= i < 64,
    ensures
        is_b64_alphabet(b64_char(i)),
{
}

proof fn lemma_group_alphabet(chunk: Seq<u8>)
    requires
        1 <= chunk.len() <= 3,
    ensures
        b64_group(chunk).len() == 4,
        is_b64_alphabet(b64_group(chunk)[0]),
        is_b64_alphabet(b64_group(chunk)[1]),
        chunk.len() > 1 ==> is_b64_alphabet(b64_group(chunk)[2]),
        chunk.len() <= 1 ==> b64_group(chunk)[2] == '=',
        chunk.len() > 2 ==> is_b64_alphabet(b64_group(chunk)[3]),
        chunk.len() <= 2 ==> b64_group(chunk)[3] == '=',
{
    let b0 = chunk[0];
    let b1 = if chunk.len() > 1 { chunk[1] } else { 0u8 };
    let b2 = if chunk.len() > 2 { chunk[2] } else { 0u8 };
    assert(b0 >> 2u8 < 64) by (bit_vector);
    assert((((b0 & 3u8) << 4u8) | (b1 >> 4u8)) < 64) by (bit_vector);
    assert((((b1 & 15u8) << 2u8) | (b2 >> 6u8)) < 64) by (bit_vector);
    assert((b2 & 63u8) < 64) by (bit_vector);
    lemma_b64_char_alphabet((b0 >> 2u8) as int);
    lemma_b64_char_alphabet((((b0 & 3u8) << 4u8) | (b1 >> 4u8)) as int);
    lemma_b64_char_alphabet((((b1 & 15u8) << 2u8) | (b2 >> 6u8)) as int);
    lemma_b64_char_alphabet((b2 & 63u8) as int);
}

proof fn lemma_groups_alphabet(data: Seq<u8>, n: nat)
    requires
        n <= b64_group_count(data.len()),
    ensures
        forall|i: int|
            0 <= i < 4 * n ==> is_b64_alphabet(#[trigger] b64_groups(data, n)[i]) || (b64_groups(
                data,
                n,
            )[i] == '=' && i >= 4 * n - 2 && n == b64_group_count(data.len())),
    decreases n,
{
    if n > 0 {
        lemma_groups_alphabet(data, (n - 1) as nat);
        lemma_b64_groups_len(data, (n - 1) as nat);
        let len = data.len();
        let start: int = 3 * (n - 1);
        let end: int = if 3 * n <= len { 3 * n as int } else { len as int };
        let chunk = data.subrange(start, end);
        assert(3 * n <= len + 2) by (nonlinear_arith)
            requires
                n <= (len + 2) / 3,
        ;
        if n < b64_group_count(len) {
            assert(3 * n <= len) by (nonlinear_arith)
                requires
                    n < (len + 2) / 3,
            ;
        }
        lemma_group_alphabet(chunk);
        let prev = b64_groups(data, (n - 1) as nat);
        assert(b64_groups(data, n) == prev + b64_group(chunk));
        assert forall|i: int|
            0 <= i < 4 * n implies is_b64_alphabet(#[trigger] b64_groups(data, n)[i]) || (
        b64_groups(data, n)[i] == '=' && i >= 4 * n - 2 && n == b64_group_count(data.len())) by {
            if i < 4 * (n - 1) {
                assert(b64_groups(data, n)[i] == prev[i]);
            } else {
                assert(b64_groups(data, n)[i] == b64_group(chunk)[i - 4 * (n - 1)]);
            }
        }
    }
}

/// Every character of an encoding is of the base64 alphabet, but for `=`
/// padding in the last two places.
pub proof fn law_base64_alphabet(data: Seq<u8>)
    ensures
        forall|i: int|
            0 <= i < base64(data).len() ==> is_b64_alphabet(#[trigger] base64(data)[i]) || (
            base64(data)[i] == '=' && i >= base64(data).len() - 2),
{
    lemma_groups_alphabet(data, b64_group_count(data.len()));
    law_base64_length(data);
}

/// The padding of an encoding: none for whole groups of three bytes, two
/// `=` when one byte is left over, one `=` when two are; no other `=`.
pub proof fn law_base64_padding(data: Seq<u8>)
    ensures
        data.len() % 3 == 0 ==> forall|i: int| 0 <= i < base64(data).len() ==> #[trigger] base64(data)[i] != '=',
        data.len() % 3 == 1 ==> base64(data)[base64(data).len() - 1] == '=' && base64(data)[base64(data).len() - 2] == '='
            && forall|i: int| 0 <= i < base64(data).len() - 2 ==> #[trigger] base64(data)[i] != '=',
        data.len() % 3 == 2 ==> base64(data)[base64(data).len() - 1] == '=' && base64(data)[base64(data).len() - 2] != '='
            && forall|i: int| 0 <= i < base64(data).len() - 1 ==> #[trigger] base64(data)[i] != '=',
{
    law_base64_alphabet(data);
    law_base64_length(data);
    let len = data.len();
    let n = b64_group_count(len);
    if n > 0 {
        lemma_b64_groups_len(data, (n - 1) as nat);
        let start: int = 3 * (n - 1);
        let end: int = if 3 * n <= len { 3 * n as int } else { len as int };
        let chunk = data.subrange(start, end);
        assert(3 * n <= len + 2 && 3 * n >= len) by (nonlinear_arith)
            requires
                n == (len + 2) / 3,
        ;
        lemma_group_alphabet(chunk);
        let prev = b64_groups(data, (n - 1) as nat);
        assert(base64(data) == prev + b64_group(chunk));
        assert(chunk.len() == 3 <==> len % 3 == 0) by (nonlinear_arith)
            requires
                chunk.len() == end - start,
                start == 3 * (n - 1),
                end == (if 3 * n <= len { 3 * n as int } else { len as int }),
                3 * n <= len + 2,
                3 * n >= len,
        ;
        assert(chunk.len() == 1 <==> len % 3 == 1) by (nonlinear_arith)
            requires
                chunk.len() == end - start,
                start == 3 * (n - 1),
                end == (if 3 * n <= len { 3 * n as int } else { len as int }),
                3 * n <= len + 2,
                3 * n >= len,
        ;
        assert(base64(data)[4 * n - 1] == b64_group(chunk)[3]);
        assert(base64(data)[4 * n - 2] == b64_group(chunk)[2]);
    }
}

/// The 6-bit value of a base64 character (0 for any other character).
pub open spec fn b64_index(c: char) -> u8 {
    if 'A' <= c <= 'Z' {
        (c as int - 65) as u8
    } else if 'a' <= c <= 'z' {
        (c as int - 97 + 26) as u8
    } else if '0' <= c <= '9' {
        (c as int - 48 + 52) as u8
    } else if c == '+' {
        62
    } else {
        63
    }
}

/// The one to three bytes a group of four characters stands for.
pub open spec fn decode_group(g: Seq<char>) -> Seq<u8> {
    let v0 = b64_index(g[0]);
    let v1 = b64_index(g[1]);
    let v2 = b64_index(g[2]);
    let v3 = b64_index(g[3]);
    let b0 = (v0 << 2u8) | (v1 >> 4u8);
    let b1 = (v1 << 4u8) | (v2 >> 2u8);
    let b2 = (v2 << 6u8) | v3;
    if g[2] == '=' {
        seq![b0]
    } else if g[3] == '=' {
        seq![b0, b1]
    } else {
        seq![b0, b1, b2]
    }
}

/// Standard base64 decoding of text made of whole groups of four.
pub open spec fn b64_decode(s: Seq<char>) -> Seq<u8>
    decreases s.len(),
{
    if s.len() < 4 {
        Seq::empty()
    } else {
        b64_decode(s.take(s.len() - 4)) + decode_group(s.subrange(s.len() - 4, s.len() as int))
    }
}

proof fn lemma_b64_index(i: int)
    requires
        0 <= i < 64,
    ensures
        b64_index(b64_char(i)) == i,
{
}

proof fn lemma_decode_group(chunk: Seq<u8>)
    requires
        1 <= chunk.len() <= 3,
    ensures
        decode_group(b64_group(chunk)) == chunk,
{
    lemma_group_alphabet(chunk);
    let b0 = chunk[0];
    let b1 = if chunk.len() > 1 { chunk[1] } else { 0u8 };
    let b2 = if chunk.len() > 2 { chunk[2] } else { 0u8 };
    let v0 = b0 >> 2u8;
    let v1 = ((b0 & 3u8) << 4u8) | (b1 >> 4u8);
    let v2 = ((b1 & 15u8) << 2u8) | (b2 >> 6u8);
    let v3 = b2 & 63u8;
    assert(v0 < 64 && v1 < 64 && v2 < 64 && v3 < 64) by (bit_vector)
        requires
            v0 == b0 >> 2u8,
            v1 == ((b0 & 3u8) << 4u8) | (b1 >> 4u8),
            v2 == ((b1 & 15u8) << 2u8) | (b2 >> 6u8),
            v3 == b2 & 63u8,
    ;
    lemma_b64_index(v0 as int);
    lemma_b64_index(v1 as int);
    lemma_b64_index(v2 as int);
    lemma_b64_index(v3 as int);
    assert((v0 << 2u8) | (v1 >> 4u8) == b0) by (bit_vector)
        requires
            v0 == b0 >> 2u8,
            v1 == ((b0 & 3u8) << 4u8) | (b1 >> 4u8),
    ;
    assert((v1 << 4u8) | (v2 >> 2u8) == b1) by (bit_vector)
        requires
            v1 == ((b0 & 3u8) << 4u8) | (b1 >> 4u8),
            v2 == ((b1 & 15u8) << 2u8) | (b2 >> 6u8),
    ;
    assert((v2 << 6u8) | v3 == b2) by (bit_vector)
        requires
            v2 == ((b1 & 15u8) << 2u8) | (b2 >> 6u8),
            v3 == b2 & 63u8,
    ;
    let g = b64_group(chunk);
    assert(g[0] == b64_char(v0 as int));
    assert(g[1] == b64_char(v1 as int));
    if chunk.len() > 1 {
        assert(g[2] == b64_char(v2 as int));
    }
    if chunk.len() > 2 {
        assert(g[3] == b64_char(v3 as int));
    }
    assert(decode_group(g) =~= chunk);
}

proof fn lemma_decode_groups(data: Seq<u8>, n: nat)
    requires
        n <= b64_group_count(data.len()),
    ensures
        b64_decode(b64_groups(data, n)) == data.take(if 3 * n <= data.len() { 3 * n as int } else { data.len() as int }),
    decreases n,
{
    let len = data.len();
    lemma_b64_groups_len(data, n);
    if n == 0 {
        assert(data.take(0) =~= Seq::<u8>::empty());
    } else {
        lemma_decode_groups(data, (n - 1) as nat);
        lemma_b64_groups_len(data, (n - 1) as nat);
        let start: int = 3 * (n - 1);
        let end: int = if 3 * n <= len { 3 * n as int } else { len as int };
        let chunk = data.subrange(start, end);
        assert(3 * n <= len + 2) by (nonlinear_arith)
            requires
                n <= (len + 2) / 3,
        ;
        lemma_decode_group(chunk);
        let prev = b64_groups(data, (n - 1) as nat);
        let all = b64_groups(data, n);
        assert(all == prev + b64_group(chunk));
        assert(all.take(all.len() - 4) =~= prev);
        assert(all.subrange(all.len() - 4, all.len() as int) =~= b64_group(chunk));
        assert(data.take(start) + chunk =~= data.take(end));
    }
}

/// Standard base64 decoding gives the encoded bytes back.
pub proof fn law_base64_round_trip(data: Seq<u8>)
    ensures
        b64_decode(base64(data)) == data,
{
    let len = data.len();
    let n = b64_group_count(len);
    lemma_decode_groups(data, n);
    assert(3 * n >= len) by (nonlinear_arith)
        requires
            n == (len + 2) / 3,
    ;
    assert(data.take(len as int) =~= data);
}

fn b64_char_exec(i: u8) -> (r: char)
    requires
        i < 64,
    ensures
        r == b64_char(i as int),
{
    if i < 26 {
        (65u8 + i) as char
    } else if i < 52 {
        (97u8 + (i - 26)) as char
    } else if i < 62 {
        (48u8 + (i - 52)) as char
    } else if i == 62 {
        '+'
    } else {
        '/'
    }
}

/// Encodes bytes as base64 with padding.
pub fn base64_encode(data: &[u8]) -> (r: String)
    ensures
        r@ == base64(data@),
        r@.len() == 4 * b64_group_count(data@.len()),
{
    let mut result = String::new();
    let len = data.len();
    let mut i: usize = 0;
    let ghost mut n: nat = 0;
    while i < len
        invariant
            len == data@.len(),
            i == 3 * n,
            i <= len + 2,
            n <= b64_group_count(len as nat),
            i < len ==> n < b64_group_count(len as nat),
            i >= len ==> n == b64_group_count(len as nat),
            result@ == b64_groups(data@, n),
        decreases len + 2 - i,
    {
        let b0 = data[i];
        let b1 = if i + 1 < len { data[i + 1] } else { 0u8 };
        let b2 = if i + 2 < len { data[i + 2] } else { 0u8 };
        let ghost end: int = if i + 3 <= len { i + 3 } else { len as int };
        let ghost chunk = data@.subrange(i as int, end);
        assert(b0 >> 2u8 < 64) by (bit_vector);
        assert((((b0 & 3u8) << 4u8) | (b1 >> 4u8)) < 64) by (bit_vector);
        assert((((b1 & 15u8) << 2u8) | (b2 >> 6u8)) < 64) by (bit_vector);
        assert((b2 & 63u8) < 64) by (bit_vector);
        push_char(&mut result, b64_char_exec(b0 >> 2u8));
        push_char(&mut result, b64_char_exec(((b0 & 3u8) << 4u8) | (b1 >> 4u8)));
        if i + 1 < len {
            push_char(&mut result, b64_char_exec(((b1 & 15u8) << 2u8) | (b2 >> 6u8)));
        } else {
            push_char(&mut result, '=');
        }
        if i + 2 < len {
            push_char(&mut result, b64_char_exec(b2 & 63u8));
        } else {
            push_char(&mut result, '=');
        }
        proof {
            assert(chunk[0] == b0);
            assert(chunk.len() > 1 ==> chunk[1] == b1);
            assert(chunk.len() > 2 ==> chunk[2] == b2);
            assert(chunk.len() > 1 <==> i + 1 < len);
            assert(chunk.len() > 2 <==> i + 2 < len);
            assert(result@ =~= b64_groups(data@, n) + b64_group(chunk));
            assert(b64_groups(data@, n + 1) == b64_groups(data@, n) + b64_group(chunk));
            n = n + 1;
        }
        i = i + 3;
    }
    proof {
        law_base64_length(data@);
    }
    result
}

} // verus!
