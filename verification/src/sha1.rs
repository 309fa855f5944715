//! A small SHA-1 implementation (FIPS 180-4), used for the WebSocket
//! handshake. The hasher is streaming: bytes may be fed in any number of
//! pieces, and the digest only depends on their concatenation.

use vstd::prelude::*;

verus! {

// ---------------------------------------------------------------------------
// Specification of SHA-1
// ---------------------------------------------------------------------------

/// The initial hash value H(0).
pub open spec fn sha1_init() -> Seq<u32> {
    seq![0x67452301u32, 0xEFCDAB89u32, 0x98BADCFEu32, 0x10325476u32, 0xC3D2E1F0u32]
}

pub open spec fn rotl1(x: u32) -> u32 {
    (x << 1u32) | (x >> 31u32)
}

pub open spec fn rotl5(x: u32) -> u32 {
    (x << 5u32) | (x >> 27u32)
}

pub open spec fn rotl30(x: u32) -> u32 {
    (x << 30u32) | (x >> 2u32)
}

/// Big-endian word made of four bytes.
pub open spec fn be_word(b0: u8, b1: u8, b2: u8, b3: u8) -> u32 {
    ((b0 as u32) << 24u32) | ((b1 as u32) << 16u32) | ((b2 as u32) << 8u32) | (b3 as u32)
}

/// The sixteen message words of the 64-byte block of `data` that starts at `start`.
pub open spec fn block_words(data: Seq<u8>, start: int) -> Seq<u32> {
    Seq::new(
        16,
        |i: int|
            be_word(
                data[start + 4 * i],
                data[start + 4 * i + 1],
                data[start + 4 * i + 2],
                data[start + 4 * i + 3],
            ),
    )
}

/// The message schedule W(t).
pub open spec fn schedule(m: Seq<u32>, t: nat) -> u32
    decreases t,
{
    if t < 16 {
        m[t as int]
    } else {
        rotl1(
            schedule(m, (t - 3) as nat) ^ schedule(m, (t - 8) as nat) ^ schedule(m, (t - 14) as nat)
                ^ schedule(m, (t - 16) as nat),
        )
    }
}

/// The logical function f(t).
pub open spec fn round_fn(t: int, b: u32, c: u32, d: u32) -> u32 {
    if t < 20 {
        (b & c) | ((!b) & d)
    } else if t < 40 {
        b ^ c ^ d
    } else if t < 60 {
        (b & c) | (b & d) | (c & d)
    } else {
        b ^ c ^ d
    }
}

/// The constant K(t).
pub open spec fn round_const(t: int) -> u32 {
    if t < 20 {
        0x5A827999u32
    } else if t < 40 {
        0x6ED9EBA1u32
    } else if t < 60 {
        0x8F1BBCDCu32
    } else {
        0xCA62C1D6u32
    }
}

/// Working variables (a, b, c, d, e).
pub type Working = (u32, u32, u32, u32, u32);

/// One round of the compression function.
pub open spec fn round_step(v: Working, t: int, w: u32) -> Working {
    let temp = rotl5(v.0).wrapping_add(round_fn(t, v.1, v.2, v.3)).wrapping_add(v.4).wrapping_add(
        round_const(t),
    ).wrapping_add(w);
    (temp, v.0, rotl30(v.1), v.2, v.3)
}

/// The working variables after the first `t` rounds.
pub open spec fn rounds(h: Seq<u32>, m: Seq<u32>, t: nat) -> Working
    decreases t,
{
    if t == 0 {
        (h[0], h[1], h[2], h[3], h[4])
    } else {
        round_step(rounds(h, m, (t - 1) as nat), t - 1, schedule(m, (t - 1) as nat))
    }
}

/// The compression function: the hash value after one more block.
pub open spec fn compress(h: Seq<u32>, m: Seq<u32>) -> Seq<u32> {
    let v = rounds(h, m, 80);
    seq![
        h[0].wrapping_add(v.0),
        h[1].wrapping_add(v.1),
        h[2].wrapping_add(v.2),
        h[3].wrapping_add(v.3),
        h[4].wrapping_add(v.4),
    ]
}

/// The hash value after the first `n` 64-byte blocks of `data`.
pub open spec fn hash_blocks(data: Seq<u8>, n: nat) -> Seq<u32>
    decreases n,
{
    if n == 0 {
        sha1_init()
    } else {
        compress(hash_blocks(data, (n - 1) as nat), block_words(data, 64 * (n - 1)))
    }
}

/// The message length in bits (modulo 2^64), as 8 big-endian bytes.
pub open spec fn length_bytes(len: nat) -> Seq<u8> {
    be_u64(((len * 8) % 0x1_0000_0000_0000_0000) as int)
}

pub open spec fn be_u64(bits: int) -> Seq<u8> {
    let x = bits as u64;
    seq![
        (x >> 56u64) as u8,
        ((x >> 48u64) & 0xffu64) as u8,
        ((x >> 40u64) & 0xffu64) as u8,
        ((x >> 32u64) & 0xffu64) as u8,
        ((x >> 24u64) & 0xffu64) as u8,
        ((x >> 16u64) & 0xffu64) as u8,
        ((x >> 8u64) & 0xffu64) as u8,
        (x & 0xffu64) as u8,
    ]
}

/// Number of zero bytes between the 0x80 marker and the length field.
pub open spec fn pad_zeros(len: nat) -> nat {
    ((119 - (len % 64)) % 64) as nat
}

/// The padded message: data, 0x80, zeros, and the 64-bit bit length.
pub open spec fn padded(data: Seq<u8>) -> Seq<u8> {
    data + seq![0x80u8] + Seq::new(pad_zeros(data.len()), |i: int| 0u8) + length_bytes(data.len())
}

/// The big-endian bytes of the five words of a hash value.
pub open spec fn state_bytes(h: Seq<u32>) -> Seq<u8> {
    Seq::new(20, |i: int| word_byte(h[i / 4], i % 4))
}

pub open spec fn word_byte(w: u32, k: int) -> u8 {
    if k == 0 {
        (w >> 24u32) as u8
    } else if k == 1 {
        ((w >> 16u32) & 0xffu32) as u8
    } else if k == 2 {
        ((w >> 8u32) & 0xffu32) as u8
    } else {
        (w & 0xffu32) as u8
    }
}

/// SHA-1 of a byte sequence.
pub open spec fn sha1(data: Seq<u8>) -> Seq<u8> {
    state_bytes(hash_blocks(padded(data), padded(data).len() / 64))
}

// ---------------------------------------------------------------------------
// Lemmas
// ---------------------------------------------------------------------------

/// The hash of the first `n` blocks only depends on those blocks.
pub proof fn lemma_hash_blocks_prefix(a: Seq<u8>, b: Seq<u8>, n: nat)
    requires
        64 * n <= a.len(),
        64 * n <= b.len(),
        a.take(64 * n as int) == b.take(64 * n as int),
    ensures
        hash_blocks(a, n) == hash_blocks(b, n),
    decreases n,
{
    if n > 0 {
        assert(a.take(64 * (n - 1)) =~= a.take(64 * n as int).take(64 * (n - 1)));
        assert(b.take(64 * (n - 1)) =~= b.take(64 * n as int).take(64 * (n - 1)));
        lemma_hash_blocks_prefix(a, b, (n - 1) as nat);
        assert forall|j: int| 0 <= j < 64 * n implies #[trigger] a[j] == b[j] by {
            assert(a[j] == a.take(64 * n as int)[j]);
            assert(b[j] == b.take(64 * n as int)[j]);
        }
        assert(block_words(a, 64 * (n - 1)) =~= block_words(b, 64 * (n - 1)));
    }
}

pub proof fn lemma_pad_len(len: nat)
    ensures
        (len + 1 + pad_zeros(len) + 8) % 64 == 0,
        pad_zeros(len) < 64,
{
}

// ---------------------------------------------------------------------------
// Implementation
// ---------------------------------------------------------------------------

fn rotl1_exec(x: u32) -> (r: u32)
    ensures
        r == rotl1(x),
{
    (x << 1u32) | (x >> 31u32)
}

fn rotl5_exec(x: u32) -> (r: u32)
    ensures
        r == rotl5(x),
{
    (x << 5u32) | (x >> 27u32)
}

fn rotl30_exec(x: u32) -> (r: u32)
    ensures
        r == rotl30(x),
{
    (x << 30u32) | (x >> 2u32)
}

/// Streaming SHA-1 hasher.
pub struct Sha1 {
    state: [u32; 5],
    buffer: Vec<u8>,
    length: u64,
    data: Ghost<Seq<u8>>,
}

/// A finished SHA-1 hash value.
pub struct Digest {
    state: [u32; 5],
}

impl View for Digest {
    type V = Seq<u32>;

    closed spec fn view(&self) -> Seq<u32> {
        self.state@
    }
}

impl View for Sha1 {
    type V = Seq<u8>;

    /// The bytes fed to the hasher so far.
    closed spec fn view(&self) -> Seq<u8> {
        self.data@
    }
}

impl Sha1 {
    /// Number of bytes already compressed (a multiple of 64).
    closed spec fn processed(&self) -> nat {
        (self.data@.len() - self.buffer@.len()) as nat
    }

    pub closed spec fn wf(&self) -> bool {
        &&& self.buffer@.len() < 64
        &&& self.buffer@.len() <= self.data@.len()
        &&& self.processed() % 64 == 0
        &&& self.buffer@ == self.data@.skip(self.processed() as int)
        &&& self.length as nat == self.data@.len()
        &&& self.length < 0x2000_0000_0000_0000
        &&& self.state@ == hash_blocks(self.data@, self.processed() / 64)
    }

    /// A hasher that has seen no bytes.
    pub fn new() -> (r: Self)
        ensures
            r.wf(),
            r@ == Seq::<u8>::empty(),
    {
        let r = Sha1 {
            state: [0x67452301u32, 0xEFCDAB89u32, 0x98BADCFEu32, 0x10325476u32, 0xC3D2E1F0u32],
            buffer: Vec::new(),
            length: 0,
            data: Ghost(Seq::empty()),
        };
        assert(r.state@ =~= sha1_init());
        assert(r.buffer@ =~= r.data@.skip(0));
        r
    }

    /// Feeds more bytes to the hasher.
    pub fn update(&mut self, data: &[u8])
        requires
            old(self).wf(),
            old(self)@.len() + data@.len() < 0x2000_0000_0000_0000,
        ensures
            final(self).wf(),
            final(self)@ == old(self)@ + data@,
    {
        let ghost old_data = self.data@;
        let ghost all = old_data + data@;
        let ghost p = self.processed();
        proof {
            assert(all.take(old_data.len() as int) =~= old_data);
            assert(old_data.take(64 * (p / 64) as int) =~= all.take(64 * (p / 64) as int));
            lemma_hash_blocks_prefix(old_data, all, p / 64);
        }
        let mut i: usize = 0;
        while i < data.len()
            invariant
                i <= data@.len(),
                p % 64 == 0,
                p <= old_data.len(),
                all == old_data + data@,
                self.buffer@ == all.subrange(p as int, old_data.len() + i),
                self.data@ == old_data,
                self.length as nat == old_data.len(),
                old_data.len() + data@.len() < 0x2000_0000_0000_0000,
                self.state@ == hash_blocks(all, p / 64),
            decreases data@.len() - i,
        {
            self.buffer.push(data[i]);
            i = i + 1;
        }
        proof {
            self.data@ = all;
            assert(self.buffer@ =~= all.skip(p as int));
        }
        self.length = self.length + data.len() as u64;
        self.drain_blocks();
    }

    /// Compresses every complete block in the buffer.
    fn drain_blocks(&mut self)
        requires
            old(self).buffer@.len() <= old(self).data@.len(),
            old(self).processed() % 64 == 0,
            old(self).buffer@ == old(self).data@.skip(old(self).processed() as int),
            old(self).length as nat == old(self).data@.len(),
            old(self).length < 0x2000_0000_0000_0000,
            old(self).state@ == hash_blocks(old(self).data@, old(self).processed() / 64),
        ensures
            final(self).wf(),
            final(self).data@ == old(self).data@,
    {
        let ghost all = self.data@;
        let ghost start = self.processed();
        let pos = Self::compress_buffer(&mut self.state, &self.buffer, Ghost(all), Ghost(start));
        let mut rest: Vec<u8> = Vec::new();
        let mut j: usize = pos;
        while j < self.buffer.len()
            invariant
                pos <= j <= self.buffer@.len(),
                rest@ == self.buffer@.subrange(pos as int, j as int),
            decreases self.buffer@.len() - j,
        {
            rest.push(self.buffer[j]);
            j = j + 1;
        }
        self.buffer = rest;
        proof {
            assert(self.buffer@ =~= all.skip(start + pos));
        }
    }

    /// Compresses the complete blocks at the front of `buffer`, which holds
    /// `all` from byte `start` on; returns how many bytes were compressed.
    fn compress_buffer(
        state: &mut [u32; 5],
        buffer: &Vec<u8>,
        Ghost(all): Ghost<Seq<u8>>,
        Ghost(start): Ghost<nat>,
    ) -> (pos: usize)
        requires
            start % 64 == 0,
            start <= all.len(),
            buffer@ == all.skip(start as int),
            old(state)@ == hash_blocks(all, start / 64),
        ensures
            pos <= buffer@.len(),
            pos % 64 == 0,
            buffer@.len() - pos < 64,
            final(state)@ == hash_blocks(all, ((start + pos) / 64) as nat),
    {
        let mut pos: usize = 0;
        while buffer.len() - pos >= 64
            invariant
                pos <= buffer@.len(),
                pos % 64 == 0,
                start % 64 == 0,
                start <= all.len(),
                buffer@ == all.skip(start as int),
                state@ == hash_blocks(all, ((start + pos) / 64) as nat),
            decreases buffer@.len() - pos,
        {
            let ghost n = ((start + pos) / 64) as nat;
            Self::process_block(state, buffer, pos);
            proof {
                assert(64 * n == start + pos);
                assert(block_words(buffer@, pos as int) =~= block_words(all, 64 * n as int)) by {
                    assert forall|k: int| 0 <= k < 64 implies #[trigger] buffer@[pos + k] == all[64
                        * n + k] by {}
                }
                assert((start + pos + 64) / 64 == n + 1);
            }
            pos = pos + 64;
        }
        pos
    }

    /// Pads the message and returns the final hash value.
    pub fn digest(self) -> (r: Digest)
        requires
            self.wf(),
        ensures
            state_bytes(r@) == sha1(self@),
            r@ == hash_blocks(padded(self@), padded(self@).len() / 64),
    {
        let mut this = self;
        let ghost data = this.data@;
        let ghost p = this.processed();
        let ghost pd = padded(data);
        let bit_length: u64 = this.length * 8;
        let ghost b0 = this.buffer@.len();
        this.buffer.push(0x80u8);
        let mut zeros: usize = 0;
        let ghost zstar = pad_zeros(data.len());
        proof {
            assert(b0 == data.len() % 64);
            assert(this.buffer@ =~= data.skip(p as int) + seq![0x80u8] + Seq::new(0, |i: int| 0u8));
        }
        while this.buffer.len() % 64 != 56
            invariant
                b0 < 64,
                b0 == data.len() % 64,
                zstar == pad_zeros(data.len()),
                this.buffer@.len() == b0 + 1 + zeros,
                zeros <= zstar,
                this.state@ == hash_blocks(data, p / 64),
                this.buffer@ == data.skip(p as int) + seq![0x80u8] + Seq::new(zeros as nat, |i: int| 0u8),
            decreases zstar - zeros,
        {
            proof {
                if zeros == zstar {
                    assert((b0 + 1 + zeros) % 64 == 56);
                }
            }
            this.buffer.push(0u8);
            zeros = zeros + 1;
            proof {
                assert(this.buffer@ =~= data.skip(p as int) + seq![0x80u8] + Seq::new(zeros as nat, |i: int| 0u8));
            }
        }
        proof {
            if zeros < zstar {
                assert((b0 + 1 + zeros) % 64 != 56);
            }
        }
        let ghost before = this.buffer@;
        this.buffer.push((bit_length >> 56u64) as u8);
        this.buffer.push(((bit_length >> 48u64) & 0xffu64) as u8);
        this.buffer.push(((bit_length >> 40u64) & 0xffu64) as u8);
        this.buffer.push(((bit_length >> 32u64) & 0xffu64) as u8);
        this.buffer.push(((bit_length >> 24u64) & 0xffu64) as u8);
        this.buffer.push(((bit_length >> 16u64) & 0xffu64) as u8);
        this.buffer.push(((bit_length >> 8u64) & 0xffu64) as u8);
        this.buffer.push((bit_length & 0xffu64) as u8);
        proof {
            assert(bit_length as int == (data.len() * 8) % 0x1_0000_0000_0000_0000);
            assert(this.buffer@ =~= before + length_bytes(data.len()));
            assert(zeros == pad_zeros(data.len()));
            assert(this.buffer@ =~= pd.skip(p as int));
            assert(64 * (p / 64) == p);
            assert(pd.take(p as int) =~= data.take(p as int));
            lemma_hash_blocks_prefix(data, pd, p / 64);
        }
        let pos = Self::compress_buffer(&mut this.state, &this.buffer, Ghost(pd), Ghost(p));
        proof {
            lemma_pad_len(data.len());
            assert(pd.len() == p + pos);
        }
        Digest { state: this.state }
    }

    /// Applies the compression function to the 64-byte block of `block` at `start`.
    fn process_block(state: &mut [u32; 5], block: &Vec<u8>, start: usize)
        requires
            start + 64 <= block@.len(),
            old(state)@.len() == 5,
        ensures
            final(state)@ == compress(old(state)@, block_words(block@, start as int)),
    {
        let ghost m = block_words(block@, start as int);
        let len = block.len();
        let mut w: Vec<u32> = Vec::new();
        let mut i: usize = 0;
        while i < 16
            invariant
                i <= 16,
                start + 64 <= block@.len(),
                len == block@.len(),
                w@.len() == i,
                m == block_words(block@, start as int),
                forall|t: int| 0 <= t < i ==> w@[t] == schedule(m, t as nat),
            decreases 16 - i,
        {
            let o = start + 4 * i;
            let word = ((block[o] as u32) << 24u32) | ((block[o + 1] as u32) << 16u32) | ((block[o
                + 2] as u32) << 8u32) | (block[o + 3] as u32);
            w.push(word);
            i = i + 1;
        }
        while i < 80
            invariant
                16 <= i <= 80,
                w@.len() == i,
                forall|t: int| 0 <= t < i ==> w@[t] == schedule(m, t as nat),
            decreases 80 - i,
        {
            let x = w[i - 3] ^ w[i - 8] ^ w[i - 14] ^ w[i - 16];
            w.push(rotl1_exec(x));
            i = i + 1;
        }
        let mut a = state[0];
        let mut b = state[1];
        let mut c = state[2];
        let mut d = state[3];
        let mut e = state[4];
        let ghost h = state@;
        let mut t: usize = 0;
        while t < 80
            invariant
                t <= 80,
                w@.len() == 80,
                h.len() == 5,
                forall|k: int| 0 <= k < 80 ==> w@[k] == schedule(m, k as nat),
                (a, b, c, d, e) == rounds(h, m, t as nat),
            decreases 80 - t,
        {
            let f: u32;
            let k: u32;
            if t < 20 {
                f = (b & c) | ((!b) & d);
                k = 0x5A827999u32;
            } else if t < 40 {
                f = b ^ c ^ d;
                k = 0x6ED9EBA1u32;
            } else if t < 60 {
                f = (b & c) | (b & d) | (c & d);
                k = 0x8F1BBCDCu32;
            } else {
                f = b ^ c ^ d;
                k = 0xCA62C1D6u32;
            }
            let temp = rotl5_exec(a).wrapping_add(f).wrapping_add(e).wrapping_add(k).wrapping_add(
                w[t],
            );
            e = d;
            d = c;
            c = rotl30_exec(b);
            b = a;
            a = temp;
            t = t + 1;
        }
        let s0 = state[0].wrapping_add(a);
        let s1 = state[1].wrapping_add(b);
        let s2 = state[2].wrapping_add(c);
        let s3 = state[3].wrapping_add(d);
        let s4 = state[4].wrapping_add(e);
        *state = [s0, s1, s2, s3, s4];
        proof {
            assert(state@ =~= compress(h, m));
        }
    }
}

impl Digest {
    /// The 20 digest bytes, each word in big-endian order.
    pub fn bytes(&self) -> (r: [u8; 20])
        ensures
            r@ == state_bytes(self@),
    {
        let s0 = self.state[0];
        let s1 = self.state[1];
        let s2 = self.state[2];
        let s3 = self.state[3];
        let s4 = self.state[4];
        let r: [u8; 20] = [
            (s0 >> 24u32) as u8,
            ((s0 >> 16u32) & 0xffu32) as u8,
            ((s0 >> 8u32) & 0xffu32) as u8,
            (s0 & 0xffu32) as u8,
            (s1 >> 24u32) as u8,
            ((s1 >> 16u32) & 0xffu32) as u8,
            ((s1 >> 8u32) & 0xffu32) as u8,
            (s1 & 0xffu32) as u8,
            (s2 >> 24u32) as u8,
            ((s2 >> 16u32) & 0xffu32) as u8,
            ((s2 >> 8u32) & 0xffu32) as u8,
            (s2 & 0xffu32) as u8,
            (s3 >> 24u32) as u8,
            ((s3 >> 16u32) & 0xffu32) as u8,
            ((s3 >> 8u32) & 0xffu32) as u8,
            (s3 & 0xffu32) as u8,
            (s4 >> 24u32) as u8,
            ((s4 >> 16u32) & 0xffu32) as u8,
            ((s4 >> 8u32) & 0xffu32) as u8,
            (s4 & 0xffu32) as u8,
        ];
        assert(r@ =~= state_bytes(self@));
        r
    }
}

} // verus!
