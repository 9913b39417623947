//! A splittable pseudorandom generator built on the SipHash
//! permutation.  **This is not intended to be a cryptographically
//! secure PRNG.**
//!
//! The generator conceptually records the history of operations that
//! have been invoked on it and on its parents, and interprets that
//! history as a string that is hashed with a SipHash-style keyed
//! function.  By hashing incrementally this takes constant time and
//! space: the state is the intermediate state of hashing the prefix
//! of the operation string seen so far.

use crate::rotl64;
use crate::rotl64_spec;
use crate::SplitPrf;
use crate::SplitRng;
use vstd::prelude::*;

verus! {

/// The four 64-bit mixing registers of the SipHash permutation.
pub type SipQuad = (u64, u64, u64, u64);

/// One round of the SipHash permutation.
///
/// This follows the SipHash reference, whose second stage rotates the
/// third register into itself.  Some derived implementations instead
/// assign a rotated copy of the first register there; that variant
/// looks like a transcription slip and is not reproduced here.
pub open spec fn sip_round_spec(v: SipQuad) -> SipQuad {
    let (v0, v1, v2, v3) = v;
    let v0 = v0.wrapping_add(v1);
    let v2 = v2.wrapping_add(v3);
    let v1 = rotl64_spec(v1, 13) ^ v0;
    let v3 = rotl64_spec(v3, 16) ^ v2;
    let v0 = rotl64_spec(v0, 32);
    let v2 = v2.wrapping_add(v1);
    let v0 = v0.wrapping_add(v3);
    let v1 = rotl64_spec(v1, 17) ^ v2;
    let v3 = rotl64_spec(v3, 21) ^ v0;
    let v2 = rotl64_spec(v2, 32);
    (v0, v1, v2, v3)
}

fn sip_round(v: SipQuad) -> (r: SipQuad)
    ensures
        r == sip_round_spec(v),
{
    let (v0, v1, v2, v3) = v;
    let v0 = v0.wrapping_add(v1);
    let v2 = v2.wrapping_add(v3);
    let v1 = rotl64(v1, 13) ^ v0;
    let v3 = rotl64(v3, 16) ^ v2;
    let v0 = rotl64(v0, 32);
    let v2 = v2.wrapping_add(v1);
    let v0 = v0.wrapping_add(v3);
    let v1 = rotl64(v1, 17) ^ v2;
    let v3 = rotl64(v3, 21) ^ v0;
    let v2 = rotl64(v2, 32);
    (v0, v1, v2, v3)
}

/// Absorb one 64-bit block: two rounds framed by XORs of the block.
pub open spec fn sip_block_spec(v: SipQuad, m: u64) -> SipQuad {
    let (v0, v1, v2, v3) = v;
    let r = sip_round_spec(sip_round_spec((v0, v1, v2, v3 ^ m)));
    (r.0 ^ m, r.1, r.2, r.3)
}

fn sip_block(v: SipQuad, m: u64) -> (r: SipQuad)
    ensures
        r == sip_block_spec(v, m),
{
    let (v0, v1, v2, v3) = v;
    let r = sip_round(sip_round((v0, v1, v2, v3 ^ m)));
    (r.0 ^ m, r.1, r.2, r.3)
}

/// Finalization: absorb a length-derived constant, flip a byte of the
/// third register, run four more rounds, and fold the registers into
/// one output word.  `len` is the amount of data hashed, in bytes.
pub open spec fn sip_finish_spec(v: SipQuad, len: u8) -> u64 {
    let r = sip_block_spec(v, (len as u64) << 59);
    let (v0, v1, v2, v3) = r;
    let f = sip_round_spec(
        sip_round_spec(sip_round_spec(sip_round_spec((v0, v1, v2 ^ 0xff, v3)))),
    );
    f.0 ^ f.1 ^ f.2 ^ f.3
}

fn sip_finish(v: SipQuad, len: u8) -> (w: u64)
    ensures
        w == sip_finish_spec(v, len),
{
    let r = sip_block(v, (len as u64) << 59);
    let (v0, v1, v2, v3) = r;
    let f = sip_round(sip_round(sip_round(sip_round((v0, v1, v2 ^ 0xff, v3)))));
    f.0 ^ f.1 ^ f.2 ^ f.3
}

pub const C0: u64 = 0x736f6d6570736575;

pub const C1: u64 = 0x646f72616e646f6d;

pub const C2: u64 = 0x6c7967656e657261;

pub const C3: u64 = 0x7465646279746573;

/// A splittable pseudorandom generator based on SipHash.
///
/// The generator feeds two kinds of 64-bit blocks to the permutation:
/// a **counter block** (the advance counter in the low half, zeroes in
/// the high half) records sequential output, and a **split block** (a
/// branch number in the low half, all ones in the high half) records a
/// descent into that branch.  `len` counts the blocks absorbed so far
/// and keys the finalization.
#[derive(Clone, Copy)]
pub struct SipRng {
    pub v0: u64,
    pub v1: u64,
    pub v2: u64,
    pub v3: u64,
    pub ctr: u32,
    pub len: u8,
}

/// A PRF taken off a [`SipRng`].
#[derive(Clone, Copy)]
pub struct SipPrf(pub SipRng);

impl SipRng {
    /// The four mixing registers as a quad.
    pub open spec fn quad(self) -> SipQuad {
        (self.v0, self.v1, self.v2, self.v3)
    }

    /// The state a fresh generator starts in: the seed words XORed
    /// with the four SipHash initialization constants, counters at
    /// zero.
    pub open spec fn new_spec(k0: u64, k1: u64) -> SipRng {
        SipRng { v0: k0 ^ C0, v1: k1 ^ C1, v2: k0 ^ C2, v3: k1 ^ C3, ctr: 0, len: 0 }
    }

    /// Descending into branch `i`: absorb the counter block, then the
    /// split block for `i`; two more blocks are on record and the
    /// counter restarts.  This is irreversible: the parent state is
    /// not recoverable from the child.
    pub open spec fn descend_spec(self, i: u32) -> SipRng {
        let q = sip_block_spec(
            sip_block_spec(self.quad(), self.ctr as u64),
            (i as u64) | 0xffff_ffff_0000_0000,
        );
        SipRng { v0: q.0, v1: q.1, v2: q.2, v3: q.3, ctr: 0, len: self.len.wrapping_add(2) }
    }

    /// The output word finalized from the current state: absorb the
    /// counter block into a copy of the registers and finalize.  The
    /// persistent state is not touched.
    pub open spec fn output_spec(self) -> u64 {
        sip_finish_spec(
            sip_block_spec(self.quad(), self.ctr as u64),
            self.len.wrapping_add(1).wrapping_mul(8),
        )
    }

    /// One sequential advance: emit the output word for the current
    /// state, then step the counter.  When the counter is at its
    /// maximum the generator avoids a cycle by descending into branch
    /// 0 instead of wrapping, so no counter value is ever reused
    /// within one branch.
    pub open spec fn advance_spec(self) -> (u64, SipRng) {
        let w = self.output_spec();
        if self.ctr == u32::MAX {
            (w, self.descend_spec(0))
        } else {
            (w, SipRng { ctr: (self.ctr + 1) as u32, ..self })
        }
    }

    /// The state transition of drawing a fresh `SipRng` off another
    /// generator: two 64-bit key words, in order.
    pub open spec fn rand_spec<G: SplitRng>(g: G) -> (G, SipRng) {
        let (k0, g) = g.step64_spec();
        let (k1, g) = g.step64_spec();
        (g, SipRng::new_spec(k0, k1))
    }

    /// Draw a randomly seeded `SipRng` off another generator.
    pub fn rand<G: SplitRng>(other: &mut G) -> (g: SipRng)
        ensures
            (*final(other), g) == SipRng::rand_spec(*old(other)),
    {
        let k0 = other.next_u64();
        let k1 = other.next_u64();
        SipRng::new(k0, k1)
    }

    /// Create a `SipRng` generator from two `u64`s given as seed.
    pub fn new(k0: u64, k1: u64) -> (g: SipRng)
        ensures
            g == SipRng::new_spec(k0, k1),
    {
        SipRng { v0: k0 ^ C0, v1: k1 ^ C1, v2: k0 ^ C2, v3: k1 ^ C3, ctr: 0, len: 0 }
    }

    /// "Descend" into a numbered branch.
    fn descend(&mut self, i: u32)
        ensures
            *final(self) == old(self).descend_spec(i),
    {
        let q = sip_block(
            sip_block((self.v0, self.v1, self.v2, self.v3), self.ctr as u64),
            (i as u64) | 0xffff_ffff_0000_0000,
        );
        self.v0 = q.0;
        self.v1 = q.1;
        self.v2 = q.2;
        self.v3 = q.3;
        self.len = self.len.wrapping_add(2);
        self.ctr = 0;
    }

    /// Generate one block of sequential output.
    fn advance(&mut self) -> (w: u64)
        ensures
            (w, *final(self)) == old(self).advance_spec(),
    {
        let w = sip_finish(
            sip_block((self.v0, self.v1, self.v2, self.v3), self.ctr as u64),
            self.len.wrapping_add(1).wrapping_mul(8),
        );
        if self.ctr == u32::MAX {
            self.descend(0);
        } else {
            self.ctr = self.ctr + 1;
        }
        w
    }
}

impl SplitPrf<SipRng> for SipPrf {
    open spec fn call_spec(self, i: u32) -> SipRng {
        self.0.descend_spec(i)
    }

    fn call(&self, i: u32) -> (g: SipRng)
        ensures
            g == self.call_spec(i),
    {
        let mut g = self.0;
        g.descend(i);
        g
    }
}

impl SplitRng for SipRng {
    type Prf = SipPrf;

    type Seed = (u64, u64);

    open spec fn from_seed_spec(seed: (u64, u64)) -> SipRng {
        SipRng::new_spec(seed.0, seed.1)
    }

    open spec fn step32_spec(self) -> (u32, SipRng) {
        let (w, g) = self.advance_spec();
        (w as u32, g)
    }

    open spec fn step64_spec(self) -> (u64, SipRng) {
        self.advance_spec()
    }

    open spec fn split_spec(self) -> (SipRng, SipRng) {
        (self.descend_spec(0), self.descend_spec(1))
    }

    open spec fn splitn_spec(self) -> (SipRng, SipPrf) {
        (self.descend_spec(0), SipPrf(self.descend_spec(1)))
    }

    fn from_seed(seed: (u64, u64)) -> (g: SipRng)
        ensures
            g == <SipRng as SplitRng>::from_seed_spec(seed),
    {
        SipRng::new(seed.0, seed.1)
    }

    fn reseed(&mut self, seed: (u64, u64))
        ensures
            *final(self) == <SipRng as SplitRng>::from_seed_spec(seed),
    {
        self.v0 = seed.0 ^ C0;
        self.v1 = seed.1 ^ C1;
        self.v2 = seed.0 ^ C2;
        self.v3 = seed.1 ^ C3;
        self.len = 0;
        self.ctr = 0;
    }

    fn next_u32(&mut self) -> (w: u32)
        ensures
            (w, *final(self)) == old(self).step32_spec(),
    {
        let w = self.advance();
        #[verifier::truncate] (w as u32)
    }

    fn next_u64(&mut self) -> (w: u64)
        ensures
            (w, *final(self)) == old(self).step64_spec(),
    {
        self.advance()
    }

    fn split(&mut self) -> (child: SipRng)
        ensures
            (*final(self), child) == old(self).split_spec(),
    {
        let mut child = *self;
        self.descend(0);
        child.descend(1);
        child
    }

    fn splitn(&mut self) -> (prf: SipPrf)
        ensures
            (*final(self), prf) == old(self).splitn_spec(),
    {
        let child = self.split();
        SipPrf(child)
    }
}

/// Absorbing a sequence of 64-bit words, one block each.
pub open spec fn sip_absorb_spec(q: SipQuad, data: Seq<u64>) -> SipQuad
    decreases data.len(),
{
    if data.len() == 0 {
        q
    } else {
        sip_absorb_spec(sip_block_spec(q, data[0]), data.drop_first())
    }
}

/// A keyed hash of a word sequence built from the SipHash primitives:
/// initialize the registers from the two key words, absorb one block
/// per word, and finalize with the data length in bytes.
pub open spec fn sip_hash_words_spec(k0: u64, k1: u64, data: Seq<u64>) -> u64 {
    sip_finish_spec(
        sip_absorb_spec((k0 ^ C0, k1 ^ C1, k0 ^ C2, k1 ^ C3), data),
        ((data.len() * 8) % 256) as u8,
    )
}

/// Hash a word sequence under the keys `k0`, `k1`.
pub fn sip_hash_words(k0: u64, k1: u64, data: &Vec<u64>) -> (h: u64)
    ensures
        h == sip_hash_words_spec(k0, k1, data@),
{
    let mut q = (k0 ^ C0, k1 ^ C1, k0 ^ C2, k1 ^ C3);
    let mut i: usize = 0;
    proof {
        assert(data@.skip(0) =~= data@);
    }
    while i < data.len()
        invariant
            i <= data@.len(),
            sip_absorb_spec((k0 ^ C0, k1 ^ C1, k0 ^ C2, k1 ^ C3), data@) == sip_absorb_spec(
                q,
                data@.skip(i as int),
            ),
        decreases data@.len() - i,
    {
        q = sip_block(q, data[i]);
        i += 1;
        proof {
            assert(data@.skip(i - 1).drop_first() =~= data@.skip(i as int));
            assert(data@.skip(i - 1)[0] == data@[i - 1]);
        }
    }
    proof {
        assert(data@.skip(data@.len() as int) =~= Seq::<u64>::empty());
    }
    let lb = ((data.len() % 32) * 8) as u8;
    proof {
        assert((data@.len() % 32) * 8 == (data@.len() * 8) % 256) by (nonlinear_arith);
    }
    sip_finish(q, lb)
}

/// Cycle avoidance: advancing a generator whose counter stands at its
/// maximum does not wrap the counter in place; the state first
/// descends into branch 0, an irreversible transition, and the counter
/// restarts inside that new branch.
pub proof fn lemma_sip_cycle_avoidance(g: SipRng)
    requires
        g.ctr == u32::MAX,
    ensures
        g.advance_spec().1 == g.descend_spec(0),
        g.advance_spec().1.ctr == 0,
        g.advance_spec().1.len == g.len.wrapping_add(2),
{
}

} // verus!
