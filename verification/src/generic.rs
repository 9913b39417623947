//! A construction that turns a pair of a splittable and a sequential
//! PRNG into a splittable PRNG.  The intent of this is to gain the
//! splittability of the former but retain the sequential generation
//! speed of the latter.
//!
//! No claims are made that the construct generically inherits any
//! good qualities of its component PRNGs.  In particular, **don't
//! assume that the composition of two secure PRNGs is also secure**.

use crate::SequentialRng;
use crate::SplitPrf;
use crate::SplitRng;
use core::marker::PhantomData;
use vstd::prelude::*;

verus! {

/// Wrapper that turns a [`SplitRng`] `S` and a [`SequentialRng`] `R`
/// into a [`SplitRng`].
///
/// All sequential output delegates to `R`.  Whenever the state of `S`
/// changes — construction from a seed, reseed, split, branch call —
/// a fresh `R` is derived by drawing four words off the changed `S`,
/// so `R`'s state is always a deterministic function of `S` alone.
pub struct Split<S, R> {
    pub splitter: S,
    pub sequential: R,
}

impl<S: Copy, R: Copy> Clone for Split<S, R> {
    fn clone(&self) -> (r: Self)
        ensures
            r == *self,
    {
        Split { splitter: self.splitter, sequential: self.sequential }
    }
}

impl<S: Copy, R: Copy> Copy for Split<S, R> {

}

/// A branch (PRF) of a [`Split`]: the frozen branch of the splitting
/// component.  Each generator it constructs gets its own freshly
/// derived sequential component.
pub struct Branch<P, R> {
    pub branch: P,
    pub sequential: PhantomData<R>,
}

impl<P: Copy, R> Clone for Branch<P, R> {
    fn clone(&self) -> (r: Self)
        ensures
            r == *self,
    {
        Branch { branch: self.branch, sequential: PhantomData }
    }
}

impl<P: Copy, R> Copy for Branch<P, R> {

}

/// Drawing a fresh sequential component off a splittable generator:
/// four 64-bit words, in order, seed the new component.
pub open spec fn derive_seq_spec<S: SplitRng, R: SequentialRng>(s: S) -> (S, R) {
    let (w0, s) = s.step64_spec();
    let (w1, s) = s.step64_spec();
    let (w2, s) = s.step64_spec();
    let (w3, s) = s.step64_spec();
    (s, R::from_words_spec(w0, w1, w2, w3))
}

fn derive_seq<S: SplitRng, R: SequentialRng>(s: &mut S) -> (r: R)
    ensures
        (*final(s), r) == derive_seq_spec::<S, R>(*old(s)),
{
    let w0 = s.next_u64();
    let w1 = s.next_u64();
    let w2 = s.next_u64();
    let w3 = s.next_u64();
    R::from_words(w0, w1, w2, w3)
}

impl<S: SplitRng, R: SequentialRng> Split<S, R> {
    /// The composite a seed constructs: seed the splitter, then derive
    /// the sequential component off it.
    pub open spec fn compose_spec(s: S) -> Split<S, R> {
        let (s, r) = derive_seq_spec::<S, R>(s);
        Split { splitter: s, sequential: r }
    }

    /// The state transition of drawing a composite off another
    /// generator: the splitter is seeded by
    /// [`crate::siprng::SipRng::rand`], and the sequential component
    /// is derived off the new splitter.
    pub open spec fn rand_spec<G: SplitRng>(g: G) -> (G, Split<crate::siprng::SipRng, R>) {
        let (g, s) = crate::siprng::SipRng::rand_spec(g);
        (g, Split::<crate::siprng::SipRng, R>::compose_spec(s))
    }
}

impl<R: SequentialRng> Split<crate::siprng::SipRng, R> {
    /// Draw a randomly seeded composite off another generator.
    pub fn rand<G: SplitRng>(other: &mut G) -> (c: Split<crate::siprng::SipRng, R>)
        ensures
            (*final(other), c) == Split::<crate::siprng::SipRng, R>::rand_spec(*old(other)),
    {
        let mut splitter = crate::siprng::SipRng::rand(other);
        let sequential = derive_seq(&mut splitter);
        Split { splitter, sequential }
    }
}

impl<S: SplitRng<Prf = P>, P: SplitPrf<S>, R: SequentialRng> SplitPrf<Split<S, R>> for Branch<
    P,
    R,
> {
    open spec fn call_spec(self, i: u32) -> Split<S, R> {
        Split::<S, R>::compose_spec(self.branch.call_spec(i))
    }

    fn call(&self, i: u32) -> (g: Split<S, R>)
        ensures
            g == self.call_spec(i),
    {
        let mut splitter = self.branch.call(i);
        let sequential = derive_seq(&mut splitter);
        Split { splitter, sequential }
    }
}

impl<S: SplitRng, R: SequentialRng> SplitRng for Split<S, R> {
    type Prf = Branch<S::Prf, R>;

    type Seed = S::Seed;

    open spec fn from_seed_spec(seed: S::Seed) -> Split<S, R> {
        Split::<S, R>::compose_spec(S::from_seed_spec(seed))
    }

    open spec fn step32_spec(self) -> (u32, Split<S, R>) {
        let (w, r) = self.sequential.seq32_spec();
        (w, Split { splitter: self.splitter, sequential: r })
    }

    open spec fn step64_spec(self) -> (u64, Split<S, R>) {
        let (w, r) = self.sequential.seq64_spec();
        (w, Split { splitter: self.splitter, sequential: r })
    }

    open spec fn split_spec(self) -> (Split<S, R>, Split<S, R>) {
        let (s, c) = self.splitter.split_spec();
        (Split::<S, R>::compose_spec(s), Split::<S, R>::compose_spec(c))
    }

    open spec fn splitn_spec(self) -> (Split<S, R>, Branch<S::Prf, R>) {
        let (s, p) = self.splitter.splitn_spec();
        (Split::<S, R>::compose_spec(s), Branch { branch: p, sequential: PhantomData })
    }

    fn from_seed(seed: S::Seed) -> (g: Split<S, R>)
        ensures
            g == <Split<S, R> as SplitRng>::from_seed_spec(seed),
    {
        let mut splitter = S::from_seed(seed);
        let sequential = derive_seq(&mut splitter);
        Split { splitter, sequential }
    }

    fn reseed(&mut self, seed: S::Seed)
        ensures
            *final(self) == <Split<S, R> as SplitRng>::from_seed_spec(seed),
    {
        self.splitter.reseed(seed);
        self.sequential = derive_seq(&mut self.splitter);
    }

    fn next_u32(&mut self) -> (w: u32)
        ensures
            (w, *final(self)) == old(self).step32_spec(),
    {
        self.sequential.next_u32()
    }

    fn next_u64(&mut self) -> (w: u64)
        ensures
            (w, *final(self)) == old(self).step64_spec(),
    {
        self.sequential.next_u64()
    }

    fn split(&mut self) -> (child: Split<S, R>)
        ensures
            (*final(self), child) == old(self).split_spec(),
    {
        let mut child_splitter = self.splitter.split();
        self.sequential = derive_seq(&mut self.splitter);
        let child_sequential = derive_seq(&mut child_splitter);
        Split { splitter: child_splitter, sequential: child_sequential }
    }

    fn splitn(&mut self) -> (prf: Branch<S::Prf, R>)
        ensures
            (*final(self), prf) == old(self).splitn_spec(),
    {
        let p = self.splitter.splitn();
        self.sequential = derive_seq(&mut self.splitter);
        Branch { branch: p, sequential: PhantomData }
    }
}

} // verus!
