//! Splittable pseudo-random number generators.
//!
//! These are generators that support a **split** operation that forks
//! one or more child generators off the parent.  Children's initial
//! states depend on the parent's state, but they produce output
//! streams that are uncorrelated to each other.  Splitting is fully
//! deterministic: the same seed always yields the same tree of
//! descendant streams, no matter in which order the splits are
//! requested.
//!
//! Every state transition in this crate is a pure function of the
//! generator's registers, and every public operation carries a
//! contract that pins its result down to that function.  The
//! determinism, reseed and branch laws are stated as proof functions
//! next to the operations they speak about.

use vstd::prelude::*;

pub mod chaskeyrng;
pub mod generic;
pub mod siprng;
pub mod splitrand;
pub mod twolcg;

verus! {

/// A wrapper that generically adds splittability to sequential RNGs,
/// with [`crate::siprng::SipRng`] as the splitting component.
pub type Split<R> = crate::generic::Split<crate::siprng::SipRng, R>;

/// The pseudo-random functions of a generic [`Split`] RNG.
pub type Prf<R> = crate::generic::Branch<crate::siprng::SipPrf, R>;

/// One rotation of the bits of a 32-bit word to the left.
pub open spec fn rotl32_spec(x: u32, n: u32) -> u32
    recommends
        n < 32,
{
    if n == 0 {
        x
    } else {
        (x << n) | (x >> ((32 - n) as u32))
    }
}

/// Rotate `x` left by `n` bits.
pub fn rotl32(x: u32, n: u32) -> (r: u32)
    requires
        n < 32,
    ensures
        r == rotl32_spec(x, n),
{
    if n == 0 {
        x
    } else {
        (x << n) | (x >> (32 - n))
    }
}

/// A trait for **splittable** pseudo random generators.
///
/// Every operation is a pure, total state transition: each exec
/// method's contract says that its result and its successor state are
/// exactly the ones computed by the matching spec function on the
/// state before the call.  Determinism of the whole tree of streams
/// follows from these contracts alone.
pub trait SplitRng: Sized + Copy {
    /// The type of pseudo-random functions ("PRFs") produced off a
    /// generator.  A PRF is a factory of generators whose initial
    /// states are determined by the state frozen into the PRF and by
    /// the index handed to [`SplitPrf::call`].  No security claim is
    /// implied by the term.
    type Prf: SplitPrf<Self>;

    /// The seed: a fixed tuple of unsigned words, specific to each
    /// backend.
    type Seed;

    /// The state a fresh generator starts in, given a seed.
    spec fn from_seed_spec(seed: Self::Seed) -> Self;

    /// The next 32-bit output word and the successor state.
    spec fn step32_spec(self) -> (u32, Self);

    /// The next 64-bit output word and the successor state.
    spec fn step64_spec(self) -> (u64, Self);

    /// The successor state and the child produced by a two-way split.
    spec fn split_spec(self) -> (Self, Self);

    /// The successor state and the PRF produced by freezing a branch.
    spec fn splitn_spec(self) -> (Self, Self::Prf);

    /// Construct a generator from a seed.
    fn from_seed(seed: Self::Seed) -> (g: Self)
        ensures
            g == Self::from_seed_spec(seed),
    ;

    /// Reset this generator to the state a fresh one built from
    /// `seed` would start in, whatever its current state is.
    fn reseed(&mut self, seed: Self::Seed)
        ensures
            *final(self) == Self::from_seed_spec(seed),
    ;

    /// Produce the next 32-bit word of the sequential stream.
    fn next_u32(&mut self) -> (w: u32)
        ensures
            (w, *final(self)) == old(self).step32_spec(),
    ;

    /// Produce the next 64-bit word of the sequential stream.
    fn next_u64(&mut self) -> (w: u64)
        ensures
            (w, *final(self)) == old(self).step64_spec(),
    ;

    /// Split a second generator off this one.  Parent and child
    /// descend into different branches, so their streams are
    /// independent.
    fn split(&mut self) -> (child: Self)
        ensures
            (*final(self), child) == old(self).split_spec(),
    ;

    /// Split a pseudo-random function off this generator.
    fn splitn(&mut self) -> (prf: Self::Prf)
        ensures
            (*final(self), prf) == old(self).splitn_spec(),
    ;
}

/// An ordinary, non-splittable sequential generator, as the generic
/// composition of [`crate::generic::Split`] needs it: it can be
/// seeded from four 64-bit words drawn off a splittable generator,
/// and it emits words by a pure state transition.
pub trait SequentialRng: Sized + Copy {
    /// The state a generator seeded from four words starts in.
    spec fn from_words_spec(w0: u64, w1: u64, w2: u64, w3: u64) -> Self;

    /// The next 32-bit output word and the successor state.
    spec fn seq32_spec(self) -> (u32, Self);

    /// The next 64-bit output word and the successor state.
    spec fn seq64_spec(self) -> (u64, Self);

    /// Construct a generator from four seed words.
    fn from_words(w0: u64, w1: u64, w2: u64, w3: u64) -> (g: Self)
        ensures
            g == Self::from_words_spec(w0, w1, w2, w3),
    ;

    /// Produce the next 32-bit word of the stream.
    fn next_u32(&mut self) -> (w: u32)
        ensures
            (w, *final(self)) == old(self).seq32_spec(),
    ;

    /// Produce the next 64-bit word of the stream.
    fn next_u64(&mut self) -> (w: u64)
        ensures
            (w, *final(self)) == old(self).seq64_spec(),
    ;
}

/// Pseudo-random functions ("PRFs") generated off a [`SplitRng`].
///
/// A PRF holds an immutable snapshot of a generator's state; calling
/// it with an index is a pure function of that snapshot and the
/// index, so the same index always yields the same generator.
pub trait SplitPrf<R>: Sized + Copy {
    /// The generator state that `call` returns for an index.
    spec fn call_spec(self, i: u32) -> R;

    /// Construct the generator this PRF maps index `i` to.
    fn call(&self, i: u32) -> (g: R)
        ensures
            g == self.call_spec(i),
    ;
}

/// The sequence of the next `n` 64-bit words a generator in state `g`
/// will emit.
pub open spec fn words64<R: SplitRng>(g: R, n: nat) -> Seq<u64>
    decreases n,
{
    if n == 0 {
        Seq::empty()
    } else {
        seq![g.step64_spec().0] + words64(g.step64_spec().1, (n - 1) as nat)
    }
}

/// The state a generator in state `g` is in after emitting `n`
/// 64-bit words.
pub open spec fn skip64<R: SplitRng>(g: R, n: nat) -> R
    decreases n,
{
    if n == 0 {
        g
    } else {
        skip64(g.step64_spec().1, (n - 1) as nat)
    }
}

/// Determinism: a generator's future output is a function of its
/// state alone, so two generators in equal states emit identical
/// sequences, however they were reached.
pub proof fn lemma_equal_states_equal_streams<R: SplitRng>(a: R, b: R, n: nat)
    requires
        a == b,
    ensures
        words64(a, n) == words64(b, n),
{
}

/// Determinism under seeding: two generators built from the same
/// seed emit identical sequences when driven identically.  Together
/// with the contract of [`SplitRng::reseed`] this also gives reseed
/// idempotence: reseeding with the seed used at construction restores
/// the stream seen after construction.
pub proof fn lemma_from_seed_deterministic<R: SplitRng>(a: R, b: R, seed: R::Seed, n: nat)
    requires
        a == R::from_seed_spec(seed),
        b == R::from_seed_spec(seed),
    ensures
        words64(a, n) == words64(b, n),
{
}

/// Branch determinism: calling a PRF twice with the same index gives
/// generators whose subsequent streams are identical.
pub proof fn lemma_branch_deterministic<R: SplitRng, P: SplitPrf<R>>(
    p: P,
    a: R,
    b: R,
    i: u32,
    n: nat,
)
    requires
        a == p.call_spec(i),
        b == p.call_spec(i),
    ensures
        words64(a, n) == words64(b, n),
{
}

/// Emit the next `n` 64-bit words of the generator's stream.
pub fn gen_words<R: SplitRng>(rng: &mut R, n: usize) -> (v: Vec<u64>)
    ensures
        v@ == words64(*old(rng), n as nat),
        *final(rng) == skip64(*old(rng), n as nat),
{
    let mut v: Vec<u64> = Vec::new();
    let mut k: usize = 0;
    while k < n
        invariant
            k <= n,
            v@.len() == k as nat,
            words64(*old(rng), n as nat) == v@ + words64(*rng, (n - k) as nat),
            skip64(*old(rng), n as nat) == skip64(*rng, (n - k) as nat),
        decreases n - k,
    {
        let ghost prev = *rng;
        let ghost vprev = v@;
        let w = rng.next_u64();
        v.push(w);
        k += 1;
        proof {
            assert(words64(prev, (n - k + 1) as nat) == seq![w] + words64(
                *rng,
                (n - k) as nat,
            ));
            assert(vprev + (seq![w] + words64(*rng, (n - k) as nat)) =~= v@ + words64(
                *rng,
                (n - k) as nat,
            ));
        }
    }
    proof {
        assert(words64(*old(rng), n as nat) =~= v@);
    }
    v
}

/// A stream of `n` words has length `n`.
pub proof fn lemma_words64_len<R: SplitRng>(g: R, n: nat)
    ensures
        words64(g, n).len() == n,
    decreases n,
{
    if n > 0 {
        lemma_words64_len(g.step64_spec().1, (n - 1) as nat);
    }
}

/// The `k`-th word of a stream of `n` words is the word the state
/// after `k` steps emits, and emitting it leads to the state after
/// `k + 1` steps.
pub proof fn lemma_words64_index<R: SplitRng>(g: R, n: nat, k: nat)
    requires
        k < n,
    ensures
        skip64(g, k).step64_spec().0 == words64(g, n)[k as int],
        skip64(g, k).step64_spec().1 == skip64(g, k + 1),
    decreases k,
{
    lemma_words64_len(g, n);
    lemma_words64_len(g.step64_spec().1, (n - 1) as nat);
    assert(words64(g, n) == seq![g.step64_spec().0] + words64(g.step64_spec().1, (n - 1) as nat));
    if k == 0 {
        assert(skip64(g, 0) == g);
        assert(skip64(g, 1) == skip64(g.step64_spec().1, 0));
    } else {
        lemma_words64_index(g.step64_spec().1, (n - 1) as nat, (k - 1) as nat);
        assert(skip64(g, k) == skip64(g.step64_spec().1, (k - 1) as nat));
        assert(skip64(g, k + 1) == skip64(g.step64_spec().1, k as nat));
        assert(words64(g, n)[k as int] == words64(g.step64_spec().1, (n - 1) as nat)[k - 1]);
    }
}

/// How many 64-bit words it takes to cover `n` bytes.
pub open spec fn words_for(n: nat) -> nat {
    (n + 7) / 8
}

/// The first `n` bytes of a word sequence packed in little-endian
/// order: byte `i` is the `i % 8`-th byte of word `i / 8`.
pub open spec fn le_bytes_spec(ws: Seq<u64>, n: nat) -> Seq<u8> {
    Seq::new(n, |i: int| (ws[i / 8] >> ((8 * (i % 8)) as u64)) as u8)
}

/// Fill `dest` with the generator's stream: consecutive 64-bit words
/// packed little-endian, the last word truncated to the bytes that
/// remain.
pub fn fill_bytes<R: SplitRng>(rng: &mut R, dest: &mut Vec<u8>)
    ensures
        final(dest)@ == le_bytes_spec(
            words64(*old(rng), words_for(old(dest)@.len())),
            old(dest)@.len(),
        ),
        *final(rng) == skip64(*old(rng), words_for(old(dest)@.len())),
{
    let n = dest.len();
    let ghost ws = words64(*old(rng), words_for(n as nat));
    let mut i: usize = 0;
    let mut w: u64 = 0;
    while i < n
        invariant
            i <= n,
            dest@.len() == n as nat,
            ws == words64(*old(rng), words_for(n as nat)),
            forall|j: int|
                0 <= j < i ==> dest@[j] == (ws[j / 8] >> ((8 * (j % 8)) as u64)) as u8,
            i % 8 == 0 ==> *rng == skip64(*old(rng), (i / 8) as nat),
            i % 8 != 0 ==> *rng == skip64(*old(rng), (i / 8 + 1) as nat) && w == ws[i as int / 8],
        decreases n - i,
    {
        if i % 8 == 0 {
            proof {
                assert(((i / 8) as nat) < words_for(n as nat));
                lemma_words64_index(*old(rng), words_for(n as nat), (i / 8) as nat);
            }
            w = rng.next_u64();
        }
        let sh: u64 = ((i % 8) * 8) as u64;
        let b = #[verifier::truncate] ((w >> sh) as u8);
        dest[i] = b;
        i = i + 1;
    }
    proof {
        assert(dest@ =~= le_bytes_spec(ws, n as nat));
    }
}

/// One rotation of the bits of a 64-bit word to the left.
pub open spec fn rotl64_spec(x: u64, n: u32) -> u64
    recommends
        n < 64,
{
    if n == 0 {
        x
    } else {
        (x << n) | (x >> ((64 - n) as u32))
    }
}

/// Rotate `x` left by `n` bits.
pub fn rotl64(x: u64, n: u32) -> (r: u64)
    requires
        n < 64,
    ensures
        r == rotl64_spec(x, n),
{
    if n == 0 {
        x
    } else {
        (x << n) | (x >> (64 - n))
    }
}

} // verus!
