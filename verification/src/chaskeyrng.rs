//! A splittable pseudorandom generator based on the Chaskey
//! permutation.  **This is not intended to be a cryptographically
//! secure PRNG.**
//!
//! Like [`crate::siprng::SipRng`] this encodes the history of advance
//! and descend operations into blocks absorbed by a permutation, but
//! with a different primitive and a counter-mode layout: one
//! permutation call fills a four-word output buffer, so the raw
//! 128-bit outputs are buffered to speed sequential generation up.
//! The buffering must not change the sequence of logical outputs
//! versus an unbuffered reference.

use crate::rotl32;
use crate::rotl32_spec;
use crate::SplitPrf;
use crate::SplitRng;
use vstd::prelude::*;

verus! {

/// The 128-bit Chaskey state as four 32-bit words.
pub type Quad32 = (u32, u32, u32, u32);

/// The four words of a `[u32; 4]` as a quad.
pub open spec fn quad_of_spec(a: [u32; 4]) -> Quad32 {
    (a[0], a[1], a[2], a[3])
}

/// The least significant 32 bits of a `u64`.
pub open spec fn lsb32_spec(n: u64) -> u32 {
    (n & 0xffff_ffff) as u32
}

/// The most significant 32 bits of a `u64`.
pub open spec fn msb32_spec(n: u64) -> u32 {
    (n >> 32) as u32
}

/// Take the least 32 significant bits of an `u64`.
fn lsb32(n: u64) -> (r: u32)
    ensures
        r == lsb32_spec(n),
{
    #[verifier::truncate] ((n & 0xffff_ffff) as u32)
}

/// Take the most 32 significant bits of an `u64`.
fn msb32(n: u64) -> (r: u32)
    ensures
        r == msb32_spec(n),
{
    #[verifier::truncate] ((n >> 32) as u32)
}

/// The XOR of two states, word by word.
pub open spec fn xor4_spec(a: Quad32, b: Quad32) -> Quad32 {
    (a.0 ^ b.0, a.1 ^ b.1, a.2 ^ b.2, a.3 ^ b.3)
}

fn xor4(a: Quad32, b: Quad32) -> (r: Quad32)
    ensures
        r == xor4_spec(a, b),
{
    (a.0 ^ b.0, a.1 ^ b.1, a.2 ^ b.2, a.3 ^ b.3)
}

/// The Chaskey round function.
pub open spec fn chaskey_round_spec(v: Quad32) -> Quad32 {
    let (v0, v1, v2, v3) = v;
    let v0 = v0.wrapping_add(v1);
    let v2 = v2.wrapping_add(v3);
    let v1 = rotl32_spec(v1, 5) ^ v0;
    let v3 = rotl32_spec(v3, 8) ^ v2;
    let v0 = rotl32_spec(v0, 16);
    let v2 = v2.wrapping_add(v1);
    let v0 = v0.wrapping_add(v3);
    let v1 = rotl32_spec(v1, 7) ^ v2;
    let v3 = rotl32_spec(v3, 13) ^ v0;
    let v2 = rotl32_spec(v2, 16);
    (v0, v1, v2, v3)
}

fn chaskey_round(v: Quad32) -> (r: Quad32)
    ensures
        r == chaskey_round_spec(v),
{
    let (v0, v1, v2, v3) = v;
    let v0 = v0.wrapping_add(v1);
    let v2 = v2.wrapping_add(v3);
    let v1 = rotl32(v1, 5) ^ v0;
    let v3 = rotl32(v3, 8) ^ v2;
    let v0 = rotl32(v0, 16);
    let v2 = v2.wrapping_add(v1);
    let v0 = v0.wrapping_add(v3);
    let v1 = rotl32(v1, 7) ^ v2;
    let v3 = rotl32(v3, 13) ^ v0;
    let v2 = rotl32(v2, 16);
    (v0, v1, v2, v3)
}

/// Four rounds of the Chaskey permutation.
pub open spec fn chaskey_permute4_spec(v: Quad32) -> Quad32 {
    chaskey_round_spec(chaskey_round_spec(chaskey_round_spec(chaskey_round_spec(v))))
}

fn chaskey_permute4(v: Quad32) -> (r: Quad32)
    ensures
        r == chaskey_permute4_spec(v),
{
    chaskey_round(chaskey_round(chaskey_round(chaskey_round(v))))
}

/// The original Chaskey permutation (8 rounds).
pub open spec fn chaskey_permute8_spec(v: Quad32) -> Quad32 {
    chaskey_permute4_spec(chaskey_permute4_spec(v))
}

fn chaskey_permute8(v: Quad32) -> (r: Quad32)
    ensures
        r == chaskey_permute8_spec(v),
{
    chaskey_permute4(chaskey_permute4(v))
}

/// The "times two" transform of the Chaskey key schedule: a doubling
/// in GF(2^128) under the polynomial with low byte 0x87.
pub open spec fn times_two_spec(key: Quad32) -> Quad32 {
    let (k0, k1, k2, k3) = key;
    (
        (k0 << 1u32) ^ (if k3 >> 31u32 == 1u32 {
            0x87u32
        } else {
            0x00u32
        }),
        (k1 << 1u32) ^ (k0 >> 31u32),
        (k2 << 1u32) ^ (k1 >> 31u32),
        (k3 << 1u32) ^ (k2 >> 31u32),
    )
}

fn times_two4(key: Quad32) -> (r: Quad32)
    ensures
        r == times_two_spec(key),
{
    let (k0, k1, k2, k3) = key;
    (
        (k0 << 1) ^ (if k3 >> 31 == 1 {
            0x87
        } else {
            0x00
        }),
        (k1 << 1) ^ (k0 >> 31),
        (k2 << 1) ^ (k1 >> 31),
        (k3 << 1) ^ (k2 >> 31),
    )
}

/*
 * Chaskey's building blocks on the `[u32; 4]` representation.
 */

/// Function used in the Chaskey key schedule.
pub fn times_two(key: [u32; 4]) -> (r: [u32; 4])
    ensures
        quad_of_spec(r) == times_two_spec(quad_of_spec(key)),
{
    let q = times_two4((key[0], key[1], key[2], key[3]));
    [q.0, q.1, q.2, q.3]
}

/// XOR a `[u32; 4]` value into the Chaskey state.
pub fn xor_u32x4(state: &mut [u32; 4], block: &[u32; 4])
    ensures
        quad_of_spec(*final(state)) == xor4_spec(quad_of_spec(*old(state)), quad_of_spec(*block)),
{
    let q = xor4(
        (state[0], state[1], state[2], state[3]),
        (block[0], block[1], block[2], block[3]),
    );
    *state = [q.0, q.1, q.2, q.3];
}

/// The Chaskey round function on the array representation.
pub fn round(v: &mut [u32; 4])
    ensures
        quad_of_spec(*final(v)) == chaskey_round_spec(quad_of_spec(*old(v))),
{
    let q = chaskey_round((v[0], v[1], v[2], v[3]));
    *v = [q.0, q.1, q.2, q.3];
}

/// The original Chaskey permutation (8 rounds) on the array
/// representation.
pub fn permute8(state: &mut [u32; 4])
    ensures
        quad_of_spec(*final(state)) == chaskey_permute8_spec(quad_of_spec(*old(state))),
{
    let q = chaskey_permute8((state[0], state[1], state[2], state[3]));
    *state = [q.0, q.1, q.2, q.3];
}

/// A splittable pseudorandom generator based on Chaskey.
#[derive(Clone, Copy)]
pub struct ChaskeyRng {
    /// The live 128-bit state of the splittable generator.
    pub v: Quad32,
    /// The derived subkey: the "times two" transform of the seed.
    pub k1: Quad32,
    /// The block counter fed into each buffer refill.
    pub ctr: u64,
    /// The buffered 128-bit raw output of the last refill.
    pub buf: Quad32,
    /// The read cursor into `buf`.
    pub i: u8,
}

/// A PRF taken off a [`ChaskeyRng`].
#[derive(Clone, Copy)]
pub struct ChaskeyPrf(pub ChaskeyRng);

/// The state transform of a descent: absorb an all-ones word, the
/// branch index and the counter halves into the live state and
/// permute once.
pub open spec fn descend_v_spec(v: Quad32, ctr: u64, j: u32) -> Quad32 {
    chaskey_permute8_spec(xor4_spec(v, (u32::MAX, j, lsb32_spec(ctr), msb32_spec(ctr))))
}

/// The word of `buf` the cursor points at.
pub open spec fn buf_word_spec(buf: Quad32, i: u8) -> u32 {
    if i == 0 {
        buf.0
    } else if i == 1 {
        buf.1
    } else if i == 2 {
        buf.2
    } else {
        buf.3
    }
}

impl ChaskeyRng {
    /// One buffer refill: the new buffer is the permutation of the
    /// live state XORed with the subkey and the counter block, with
    /// the subkey XORed back in; the counter steps and the cursor
    /// resets.  When the counter is at its maximum the state descends
    /// into branch 0 instead of wrapping, so no counter value is ever
    /// reused within one branch.
    pub open spec fn advance_spec(self) -> ChaskeyRng {
        let block = (0u32, 0u32, lsb32_spec(self.ctr), msb32_spec(self.ctr));
        let buf = xor4_spec(
            chaskey_permute8_spec(xor4_spec(xor4_spec(self.v, block), self.k1)),
            self.k1,
        );
        if self.ctr == u64::MAX {
            ChaskeyRng {
                v: descend_v_spec(self.v, self.ctr, 0),
                k1: self.k1,
                ctr: 0,
                buf,
                i: 0,
            }
        } else {
            ChaskeyRng { v: self.v, k1: self.k1, ctr: (self.ctr + 1) as u64, buf, i: 0 }
        }
    }

    /// Descending into branch `j`: transform the live state, reset
    /// the counter, and refill the buffer from the new state.  This
    /// is irreversible: the parent state is not recoverable from the
    /// child.
    pub open spec fn descend_spec(self, j: u32) -> ChaskeyRng {
        ChaskeyRng {
            v: descend_v_spec(self.v, self.ctr, j),
            k1: self.k1,
            ctr: 0,
            buf: self.buf,
            i: self.i,
        }.advance_spec()
    }

    /// The state a fresh generator starts in: the seed words as live
    /// state, their "times two" transform as subkey, counters at
    /// zero, and the buffer already filled once.
    pub open spec fn init_spec(q: Quad32) -> ChaskeyRng {
        ChaskeyRng {
            v: q,
            k1: times_two_spec(q),
            ctr: 0,
            buf: (0u32, 0u32, 0u32, 0u32),
            i: 0,
        }.advance_spec()
    }

    /// [`ChaskeyRng::init_spec`], taking the seed as an array.
    pub open spec fn new_spec(seed: [u32; 4]) -> ChaskeyRng {
        ChaskeyRng::init_spec(quad_of_spec(seed))
    }

    /// The state transition of drawing a fresh `ChaskeyRng` off
    /// another generator: four 32-bit seed words, in order.
    pub open spec fn rand_spec<G: SplitRng>(g: G) -> (G, ChaskeyRng) {
        let (w0, g) = g.step32_spec();
        let (w1, g) = g.step32_spec();
        let (w2, g) = g.step32_spec();
        let (w3, g) = g.step32_spec();
        (g, ChaskeyRng::init_spec((w0, w1, w2, w3)))
    }

    /// The next 32-bit word and the successor state: refill first if
    /// the buffer is exhausted, then hand out the word under the
    /// cursor.
    pub open spec fn step32_chaskey_spec(self) -> (u32, ChaskeyRng) {
        let s = if self.i >= 4 {
            self.advance_spec()
        } else {
            self
        };
        (
            buf_word_spec(s.buf, s.i),
            ChaskeyRng { v: s.v, k1: s.k1, ctr: s.ctr, buf: s.buf, i: (s.i + 1) as u8 },
        )
    }

    fn init(v: Quad32) -> (g: ChaskeyRng)
        ensures
            g == ChaskeyRng::init_spec(v),
    {
        let mut g = ChaskeyRng {
            v,
            k1: times_two4(v),
            ctr: 0,
            buf: (0, 0, 0, 0),
            i: 0,
        };
        g.advance();
        g
    }

    pub fn new(seed: [u32; 4]) -> (g: ChaskeyRng)
        ensures
            g == ChaskeyRng::new_spec(seed),
    {
        ChaskeyRng::init((seed[0], seed[1], seed[2], seed[3]))
    }

    /// Draw a randomly seeded `ChaskeyRng` off another generator.
    pub fn rand<G: SplitRng>(other: &mut G) -> (g: ChaskeyRng)
        ensures
            (*final(other), g) == ChaskeyRng::rand_spec(*old(other)),
    {
        let w0 = other.next_u32();
        let w1 = other.next_u32();
        let w2 = other.next_u32();
        let w3 = other.next_u32();
        ChaskeyRng::init((w0, w1, w2, w3))
    }

    fn advance(&mut self)
        ensures
            *final(self) == old(self).advance_spec(),
    {
        let block = (0u32, 0u32, lsb32(self.ctr), msb32(self.ctr));
        let x = xor4(xor4(self.v, block), self.k1);
        self.buf = xor4(chaskey_permute8(x), self.k1);
        if self.ctr == u64::MAX {
            self.v = chaskey_permute8(
                xor4(self.v, (u32::MAX, 0, lsb32(self.ctr), msb32(self.ctr))),
            );
            self.ctr = 0;
        } else {
            self.ctr = self.ctr + 1;
        }
        self.i = 0;
    }

    fn descend(&mut self, j: u32)
        ensures
            *final(self) == old(self).descend_spec(j),
    {
        self.v = chaskey_permute8(xor4(self.v, (u32::MAX, j, lsb32(self.ctr), msb32(self.ctr))));
        self.ctr = 0;
        self.advance();
    }
}

impl SplitPrf<ChaskeyRng> for ChaskeyPrf {
    open spec fn call_spec(self, i: u32) -> ChaskeyRng {
        self.0.descend_spec(i)
    }

    fn call(&self, i: u32) -> (g: ChaskeyRng)
        ensures
            g == self.call_spec(i),
    {
        let mut g = self.0;
        g.descend(i);
        g
    }
}

impl SplitRng for ChaskeyRng {
    type Prf = ChaskeyPrf;

    type Seed = [u32; 4];

    open spec fn from_seed_spec(seed: [u32; 4]) -> ChaskeyRng {
        ChaskeyRng::new_spec(seed)
    }

    open spec fn step32_spec(self) -> (u32, ChaskeyRng) {
        self.step32_chaskey_spec()
    }

    open spec fn step64_spec(self) -> (u64, ChaskeyRng) {
        let (hi, s1) = self.step32_chaskey_spec();
        let (lo, s2) = s1.step32_chaskey_spec();
        (((hi as u64) << 32u64) | (lo as u64), s2)
    }

    open spec fn split_spec(self) -> (ChaskeyRng, ChaskeyRng) {
        (self.descend_spec(0), self.descend_spec(1))
    }

    open spec fn splitn_spec(self) -> (ChaskeyRng, ChaskeyPrf) {
        (self.descend_spec(0), ChaskeyPrf(self.descend_spec(1)))
    }

    fn from_seed(seed: [u32; 4]) -> (g: ChaskeyRng)
        ensures
            g == <ChaskeyRng as SplitRng>::from_seed_spec(seed),
    {
        ChaskeyRng::new(seed)
    }

    fn reseed(&mut self, seed: [u32; 4])
        ensures
            *final(self) == <ChaskeyRng as SplitRng>::from_seed_spec(seed),
    {
        let v = (seed[0], seed[1], seed[2], seed[3]);
        self.v = v;
        self.k1 = times_two4(v);
        self.ctr = 0;
        self.buf = (0, 0, 0, 0);
        self.i = 0;
        self.advance();
    }

    fn next_u32(&mut self) -> (w: u32)
        ensures
            (w, *final(self)) == old(self).step32_spec(),
    {
        if self.i >= 4 {
            self.advance();
        }
        let w = if self.i == 0 {
            self.buf.0
        } else if self.i == 1 {
            self.buf.1
        } else if self.i == 2 {
            self.buf.2
        } else {
            self.buf.3
        };
        self.i = self.i + 1;
        w
    }

    fn next_u64(&mut self) -> (w: u64)
        ensures
            (w, *final(self)) == old(self).step64_spec(),
    {
        let hi = self.next_u32();
        let lo = self.next_u32();
        ((hi as u64) << 32) | (lo as u64)
    }

    fn split(&mut self) -> (child: ChaskeyRng)
        ensures
            (*final(self), child) == old(self).split_spec(),
    {
        let mut child = *self;
        self.descend(0);
        child.descend(1);
        child
    }

    fn splitn(&mut self) -> (prf: ChaskeyPrf)
        ensures
            (*final(self), prf) == old(self).splitn_spec(),
    {
        let child = self.split();
        ChaskeyPrf(child)
    }
}

/// The four words of the next refill, in cursor order.
pub open spec fn refill_words_spec(s: ChaskeyRng) -> Seq<u32> {
    let b = s.advance_spec().buf;
    seq![b.0, b.1, b.2, b.3]
}

/// The unbuffered reference stream from state `s`: refill after
/// refill, four words each, reading no buffer and no cursor.
pub open spec fn reference_words_spec(s: ChaskeyRng, m: nat) -> Seq<u32>
    decreases m,
{
    if m == 0 {
        Seq::empty()
    } else {
        refill_words_spec(s) + reference_words_spec(s.advance_spec(), (m - 1) as nat)
    }
}

/// The buffered stream: the next `n` 32-bit words the generator hands
/// out through its buffer and cursor.
pub open spec fn buffered_words_spec(s: ChaskeyRng, n: nat) -> Seq<u32>
    decreases n,
{
    if n == 0 {
        Seq::empty()
    } else {
        let (w, s2) = s.step32_chaskey_spec();
        seq![w] + buffered_words_spec(s2, (n - 1) as nat)
    }
}

/// A refill reads only the live state, the subkey and the counter:
/// two states that agree on those three refill identically, whatever
/// their buffers and cursors hold.
pub proof fn lemma_advance_ignores_buffer(a: ChaskeyRng, b: ChaskeyRng)
    requires
        a.v == b.v,
        a.k1 == b.k1,
        a.ctr == b.ctr,
    ensures
        a.advance_spec() == b.advance_spec(),
{
}

/// Reading a freshly refilled buffer: the first four buffered words
/// are the buffer's words in order, and they leave the generator in
/// the same refilled state with the cursor exhausted.
proof fn lemma_refill_run(s1: ChaskeyRng, n: nat)
    requires
        s1.i == 0,
        n >= 4,
    ensures
        buffered_words_spec(s1, n) == seq![s1.buf.0, s1.buf.1, s1.buf.2, s1.buf.3]
            + buffered_words_spec(
            ChaskeyRng { v: s1.v, k1: s1.k1, ctr: s1.ctr, buf: s1.buf, i: 4 },
            (n - 4) as nat,
        ),
{
    let t1 = ChaskeyRng { v: s1.v, k1: s1.k1, ctr: s1.ctr, buf: s1.buf, i: 1 };
    let t2 = ChaskeyRng { v: s1.v, k1: s1.k1, ctr: s1.ctr, buf: s1.buf, i: 2 };
    let t3 = ChaskeyRng { v: s1.v, k1: s1.k1, ctr: s1.ctr, buf: s1.buf, i: 3 };
    let t4 = ChaskeyRng { v: s1.v, k1: s1.k1, ctr: s1.ctr, buf: s1.buf, i: 4 };
    let b = s1.buf;
    assert(buffered_words_spec(s1, n) == seq![b.0] + buffered_words_spec(t1, (n - 1) as nat));
    assert(buffered_words_spec(t1, (n - 1) as nat) == seq![b.1] + buffered_words_spec(
        t2,
        (n - 2) as nat,
    ));
    assert(buffered_words_spec(t2, (n - 2) as nat) == seq![b.2] + buffered_words_spec(
        t3,
        (n - 3) as nat,
    ));
    assert(buffered_words_spec(t3, (n - 3) as nat) == seq![b.3] + buffered_words_spec(
        t4,
        (n - 4) as nat,
    ));
    assert(seq![b.0] + (seq![b.1] + (seq![b.2] + (seq![b.3] + buffered_words_spec(
        t4,
        (n - 4) as nat,
    )))) =~= seq![b.0, b.1, b.2, b.3] + buffered_words_spec(t4, (n - 4) as nat));
}

/// Buffering is only a throughput optimization: from a state whose
/// buffer is exhausted, the next `4·m` buffered outputs are exactly
/// the words of the next `m` refills of the unbuffered reference.
pub proof fn lemma_buffering_preserves_outputs(s: ChaskeyRng, m: nat)
    requires
        s.i >= 4,
    ensures
        buffered_words_spec(s, 4 * m) == reference_words_spec(s, m),
    decreases m,
{
    if m > 0 {
        let s1 = s.advance_spec();
        let s4 = ChaskeyRng { v: s1.v, k1: s1.k1, ctr: s1.ctr, buf: s1.buf, i: 4 };
        assert(s.step32_chaskey_spec() == s1.step32_chaskey_spec());
        assert(buffered_words_spec(s, 4 * m) == buffered_words_spec(s1, 4 * m));
        lemma_refill_run(s1, 4 * m);
        lemma_buffering_preserves_outputs(s4, (m - 1) as nat);
        lemma_advance_ignores_buffer(s4, s1);
        if m > 1 {
            assert(reference_words_spec(s4, (m - 1) as nat) == reference_words_spec(
                s1,
                (m - 1) as nat,
            ));
        }
        let b = s1.buf;
        assert(buffered_words_spec(s, 4 * m) == seq![b.0, b.1, b.2, b.3] + buffered_words_spec(
            s4,
            (4 * m - 4) as nat,
        ));
        assert(buffered_words_spec(s4, (4 * m - 4) as nat) == reference_words_spec(
            s4,
            (m - 1) as nat,
        ));
        assert(reference_words_spec(s, m) == refill_words_spec(s) + reference_words_spec(
            s1,
            (m - 1) as nat,
        ));
        assert(refill_words_spec(s) =~= seq![b.0, b.1, b.2, b.3]);
    }
}

/// The same, aligned at any state `s` about to refill — which is how
/// every generator starts, since construction, reseed and descent all
/// end in a refill: the freshly refilled generator's `4·m`-word
/// stream is the reference stream of `m` refills from `s`.
pub proof fn lemma_fresh_stream_is_reference(s: ChaskeyRng, m: nat)
    ensures
        buffered_words_spec(s.advance_spec(), 4 * m) == reference_words_spec(s, m),
{
    if m > 0 {
        let s1 = s.advance_spec();
        let s4 = ChaskeyRng { v: s1.v, k1: s1.k1, ctr: s1.ctr, buf: s1.buf, i: 4 };
        lemma_refill_run(s1, 4 * m);
        lemma_buffering_preserves_outputs(s4, (m - 1) as nat);
        lemma_advance_ignores_buffer(s4, s1);
        if m > 1 {
            assert(reference_words_spec(s4, (m - 1) as nat) == reference_words_spec(
                s1,
                (m - 1) as nat,
            ));
        }
        let b = s1.buf;
        assert(buffered_words_spec(s1, 4 * m) == seq![b.0, b.1, b.2, b.3] + buffered_words_spec(
            s4,
            (4 * m - 4) as nat,
        ));
        assert(buffered_words_spec(s4, (4 * m - 4) as nat) == reference_words_spec(
            s4,
            (m - 1) as nat,
        ));
        assert(reference_words_spec(s, m) == refill_words_spec(s) + reference_words_spec(
            s1,
            (m - 1) as nat,
        ));
        assert(refill_words_spec(s) =~= seq![b.0, b.1, b.2, b.3]);
    }
}

/// Cycle avoidance: a refill whose counter stands at its maximum does
/// not wrap the counter in place; the live state first descends into
/// branch 0, an irreversible transition, and the counter restarts
/// inside that new branch.
pub proof fn lemma_chaskey_cycle_avoidance(g: ChaskeyRng)
    requires
        g.ctr == u64::MAX,
    ensures
        g.advance_spec().v == descend_v_spec(g.v, g.ctr, 0),
        g.advance_spec().ctr == 0,
{
}

} // verus!
