//! A splittable pseudorandom generator based on a pair of linear
//! congruential generators whose words are combined by a data-driven
//! rotation ("TwoLCG").
//!
//! Unlike the hash-construction generators, splitting here is
//! generation-based: a split draws a fresh seed tuple from the parent
//! and constructs a new generator from it, and the branch factory maps
//! an index to a seed tuple in closed form, so many independent
//! streams can be set up front without sequential dependency.

use crate::rotl64;
use crate::rotl64_spec;
use crate::SequentialRng;
use crate::SplitPrf;
use crate::SplitRng;
use vstd::prelude::*;

verus! {

pub const C0: u64 = 2685821657736338717;

pub const C1: u64 = 3202034522624059733;

pub const C2: u64 = 3935559000370003845;

/// A splittable pseudorandom generator based on the TwoLCG algorithm.
#[derive(Clone, Copy)]
pub struct TwoLcgRng {
    /// The state of the generator (mutable, two words).
    pub s1: u64,
    pub s2: u64,
    /// The parameter of the generator (immutable, forced odd).
    pub g1: u64,
    pub g2: u64,
}

/// A PRF taken off a [`TwoLcgRng`]: an odd multiplier drawn from the
/// parent's stream.
#[derive(Clone, Copy)]
pub struct TwoLcgPrf {
    pub m: u64,
}

/// The rotation count drawn from the top six bits of `s1`.
pub open spec fn twolcg_rot_spec(s1: u64) -> u32 {
    ((s1 >> 58) & 0x3f) as u32
}

proof fn lemma_rot_in_range(x: u64)
    by (bit_vector)
    ensures
        ((x >> 58) & 0x3f) < 64,
{
}

impl TwoLcgRng {
    /// The state a fresh generator starts in: the low bits of both
    /// multipliers are forced to 1 to keep the recurrences full
    /// period.
    pub open spec fn new_spec(s1: u64, s2: u64, g1: u64, g2: u64) -> TwoLcgRng {
        TwoLcgRng { s1, s2, g1: g1 | 1, g2: g2 | 1 }
    }

    /// One step: rotate-combine the two state words, scramble the
    /// result by an odd multiplier and a half-word fold, and push both
    /// states through their linear congruential recurrences.
    pub open spec fn step_spec(self) -> (u64, TwoLcgRng) {
        let r0 = rotl64_spec(self.s1, 32) ^ self.s2;
        let r1 = rotl64_spec(r0, twolcg_rot_spec(self.s1));
        let r2 = r1.wrapping_mul(C0);
        (
            r2 ^ (r2 >> 32),
            TwoLcgRng {
                s1: self.s1.wrapping_mul(C1).wrapping_add(self.g1),
                s2: self.s2.wrapping_mul(C2).wrapping_add(self.g2),
                g1: self.g1,
                g2: self.g2,
            },
        )
    }

    /// The state transition of drawing a fresh `TwoLcgRng` off
    /// another generator: four 64-bit seed words, in order.
    pub open spec fn rand_spec<G: SplitRng>(g: G) -> (G, TwoLcgRng) {
        let (w0, g) = g.step64_spec();
        let (w1, g) = g.step64_spec();
        let (w2, g) = g.step64_spec();
        let (w3, g) = g.step64_spec();
        (g, TwoLcgRng { s1: w0, s2: w1, g1: w2 | 1, g2: w3 | 1 })
    }

    /// Draw a randomly seeded `TwoLcgRng` off another generator.
    pub fn rand<G: SplitRng>(other: &mut G) -> (g: TwoLcgRng)
        ensures
            (*final(other), g) == TwoLcgRng::rand_spec(*old(other)),
    {
        let w0 = other.next_u64();
        let w1 = other.next_u64();
        let w2 = other.next_u64();
        let w3 = other.next_u64();
        TwoLcgRng { s1: w0, s2: w1, g1: w2 | 1, g2: w3 | 1 }
    }

    /// Create a new `TwoLcgRng` from the given state.  Note that the
    /// least significant bit of both `g1` and `g2` is forced to 1.
    pub fn new(s1: u64, s2: u64, g1: u64, g2: u64) -> (g: TwoLcgRng)
        ensures
            g == TwoLcgRng::new_spec(s1, s2, g1, g2),
    {
        TwoLcgRng { s1, s2, g1: g1 | 1, g2: g2 | 1 }
    }

    /// Produce the next 64-bit word of the stream.
    pub fn next_u64(&mut self) -> (w: u64)
        ensures
            (w, *final(self)) == old(self).step_spec(),
    {
        let r0 = rotl64(self.s1, 32) ^ self.s2;
        proof {
            lemma_rot_in_range(self.s1);
        }
        let sh = ((self.s1 >> 58) & 0x3f) as u32;
        let r1 = rotl64(r0, sh);
        let r2 = r1.wrapping_mul(C0);
        self.s1 = self.s1.wrapping_mul(C1).wrapping_add(self.g1);
        self.s2 = self.s2.wrapping_mul(C2).wrapping_add(self.g2);
        r2 ^ (r2 >> 32)
    }

    /// Produce the next 32-bit word: the next 64-bit word, truncated.
    pub fn next_u32(&mut self) -> (w: u32)
        ensures
            (w, *final(self)) == old(self).step32_spec(),
    {
        let w = self.next_u64();
        #[verifier::truncate] (w as u32)
    }
}

impl SplitPrf<TwoLcgRng> for TwoLcgPrf {
    /// The branch construction recommended for setting up many
    /// generators up front: the four seed words are consecutive even
    /// multiples of the captured odd multiplier, starting at `4·k·m`.
    open spec fn call_spec(self, k: u32) -> TwoLcgRng {
        let k0 = k as u64;
        let k1 = k.wrapping_add(1) as u64;
        let k2 = k.wrapping_add(2) as u64;
        let k3 = k.wrapping_add(3) as u64;
        TwoLcgRng::new_spec(
            (4 as u64).wrapping_mul(k0).wrapping_mul(self.m),
            (4 as u64).wrapping_mul(k2).wrapping_mul(self.m),
            (4 as u64).wrapping_mul(k1).wrapping_mul(self.m),
            (4 as u64).wrapping_mul(k3).wrapping_mul(self.m),
        )
    }

    fn call(&self, k: u32) -> (g: TwoLcgRng)
        ensures
            g == self.call_spec(k),
    {
        let k0 = k as u64;
        let k1 = k.wrapping_add(1) as u64;
        let k2 = k.wrapping_add(2) as u64;
        let k3 = k.wrapping_add(3) as u64;
        TwoLcgRng::new(
            4u64.wrapping_mul(k0).wrapping_mul(self.m),
            4u64.wrapping_mul(k2).wrapping_mul(self.m),
            4u64.wrapping_mul(k1).wrapping_mul(self.m),
            4u64.wrapping_mul(k3).wrapping_mul(self.m),
        )
    }
}

impl SplitRng for TwoLcgRng {
    type Prf = TwoLcgPrf;

    type Seed = [u64; 4];

    open spec fn from_seed_spec(seed: [u64; 4]) -> TwoLcgRng {
        TwoLcgRng { s1: seed[0], s2: seed[1], g1: seed[2] | 1, g2: seed[3] | 1 }
    }

    open spec fn step32_spec(self) -> (u32, TwoLcgRng) {
        let (w, g) = self.step_spec();
        (w as u32, g)
    }

    open spec fn step64_spec(self) -> (u64, TwoLcgRng) {
        self.step_spec()
    }

    /// A split draws a fresh four-word seed tuple from the parent and
    /// constructs the child from it.
    open spec fn split_spec(self) -> (TwoLcgRng, TwoLcgRng) {
        let (w0, g) = self.step_spec();
        let (w1, g) = g.step_spec();
        let (w2, g) = g.step_spec();
        let (w3, g) = g.step_spec();
        (g, TwoLcgRng { s1: w0, s2: w1, g1: w2 | 1, g2: w3 | 1 })
    }

    /// The branch factory captures one fresh odd multiplier drawn
    /// from the parent's stream.
    open spec fn splitn_spec(self) -> (TwoLcgRng, TwoLcgPrf) {
        let (w, g) = self.step_spec();
        (g, TwoLcgPrf { m: w | 1 })
    }

    fn from_seed(seed: [u64; 4]) -> (g: TwoLcgRng)
        ensures
            g == <TwoLcgRng as SplitRng>::from_seed_spec(seed),
    {
        TwoLcgRng { s1: seed[0], s2: seed[1], g1: seed[2] | 1, g2: seed[3] | 1 }
    }

    fn reseed(&mut self, seed: [u64; 4])
        ensures
            *final(self) == <TwoLcgRng as SplitRng>::from_seed_spec(seed),
    {
        self.s1 = seed[0];
        self.s2 = seed[1];
        self.g1 = seed[2] | 1;
        self.g2 = seed[3] | 1;
    }

    fn next_u32(&mut self) -> (w: u32)
        ensures
            (w, *final(self)) == old(self).step32_spec(),
    {
        self.next_u32()
    }

    fn next_u64(&mut self) -> (w: u64)
        ensures
            (w, *final(self)) == old(self).step64_spec(),
    {
        self.next_u64()
    }

    fn split(&mut self) -> (child: TwoLcgRng)
        ensures
            (*final(self), child) == old(self).split_spec(),
    {
        let w0 = self.next_u64();
        let w1 = self.next_u64();
        let w2 = self.next_u64();
        let w3 = self.next_u64();
        TwoLcgRng { s1: w0, s2: w1, g1: w2 | 1, g2: w3 | 1 }
    }

    fn splitn(&mut self) -> (prf: TwoLcgPrf)
        ensures
            (*final(self), prf) == old(self).splitn_spec(),
    {
        let w = self.next_u64();
        TwoLcgPrf { m: w | 1 }
    }
}

impl SequentialRng for TwoLcgRng {
    open spec fn from_words_spec(w0: u64, w1: u64, w2: u64, w3: u64) -> TwoLcgRng {
        TwoLcgRng { s1: w0, s2: w1, g1: w2 | 1, g2: w3 | 1 }
    }

    open spec fn seq32_spec(self) -> (u32, TwoLcgRng) {
        self.step32_spec()
    }

    open spec fn seq64_spec(self) -> (u64, TwoLcgRng) {
        self.step_spec()
    }

    fn from_words(w0: u64, w1: u64, w2: u64, w3: u64) -> (g: TwoLcgRng)
        ensures
            g == <TwoLcgRng as SequentialRng>::from_words_spec(w0, w1, w2, w3),
    {
        TwoLcgRng { s1: w0, s2: w1, g1: w2 | 1, g2: w3 | 1 }
    }

    fn next_u32(&mut self) -> (w: u32)
        ensures
            (w, *final(self)) == old(self).seq32_spec(),
    {
        self.next_u32()
    }

    fn next_u64(&mut self) -> (w: u64)
        ensures
            (w, *final(self)) == old(self).seq64_spec(),
    {
        self.next_u64()
    }
}

} // verus!
