//! Type-directed generation of compound values from a splittable
//! source.
//!
//! A compound value — a tuple of components, a fixed-size block of
//! words — is generated by splitting **one child generator per
//! structural component** and generating each component from its own
//! child.  The parent is only ever advanced by its own split
//! operation, never by the children, so the value generated for one
//! component can never perturb the bits consumed for another: change
//! how one component is generated and every other component still
//! comes out the same.  The routines here are driven by runtime-known
//! arity — a sequence of component lengths — rather than by one
//! instance per arity.
//!
//! The same layer generates deterministic **functions**: a
//! [`WordFn`] captures a branch factory and a pair of hash keys at
//! construction time; calling it hashes the argument to an index,
//! asks the factory for the generator frozen under that index, and
//! generates the result from it.  The mapping is referentially
//! transparent — the same argument always yields the same result —
//! yet differs for every freshly constructed instance.

use crate::gen_words;
use crate::siprng::sip_hash_words;
use crate::siprng::sip_hash_words_spec;
use crate::words64;
use crate::SplitPrf;
use crate::SplitRng;
use vstd::prelude::*;

verus! {

/// A newtype wrapper marking a value as generated sequentially,
/// straight off the generator's own word stream, without splitting.
/// This is meant for "atomic" values whose generation does not
/// benefit from splittability.
pub struct Sequential<A>(pub A);

impl Sequential<u64> {
    /// Draw one 64-bit word sequentially.
    pub fn split_rand<R: SplitRng>(rng: &mut R) -> (s: Sequential<u64>)
        ensures
            (s.0, *final(rng)) == old(rng).step64_spec(),
    {
        Sequential(rng.next_u64())
    }
}

impl Sequential<u32> {
    /// Draw one 32-bit word sequentially.
    pub fn split_rand<R: SplitRng>(rng: &mut R) -> (s: Sequential<u32>)
        ensures
            (s.0, *final(rng)) == old(rng).step32_spec(),
    {
        Sequential(rng.next_u32())
    }
}

/// Generating one component of `n` words: each word comes from a
/// fresh split child of the component's generator, so even the words
/// of one block are mutually independent.  Yields the words and the
/// component generator's final state.
pub open spec fn gen_elems_spec<R: SplitRng>(g: R, n: nat) -> (Seq<u64>, R)
    decreases n,
{
    if n == 0 {
        (Seq::empty(), g)
    } else {
        let (g1, c) = g.split_spec();
        let w = c.step64_spec().0;
        let (rest, gn) = gen_elems_spec(g1, (n - 1) as nat);
        (seq![w] + rest, gn)
    }
}

/// Generate a block of `n` words, one split child per word.
pub fn split_rand_words<R: SplitRng>(rng: &mut R, n: usize) -> (v: Vec<u64>)
    ensures
        (v@, *final(rng)) == gen_elems_spec(*old(rng), n as nat),
{
    let mut v: Vec<u64> = Vec::new();
    let mut k: usize = 0;
    while k < n
        invariant
            k <= n,
            v@.len() == k as nat,
            gen_elems_spec(*old(rng), n as nat).0 == v@ + gen_elems_spec(*rng, (n - k) as nat).0,
            gen_elems_spec(*old(rng), n as nat).1 == gen_elems_spec(*rng, (n - k) as nat).1,
        decreases n - k,
    {
        let ghost prev = *rng;
        let ghost vprev = v@;
        let mut c = rng.split();
        let w = c.next_u64();
        v.push(w);
        k += 1;
        proof {
            assert(gen_elems_spec(prev, (n - k + 1) as nat).0 == seq![w] + gen_elems_spec(
                *rng,
                (n - k) as nat,
            ).0);
            assert(vprev + (seq![w] + gen_elems_spec(*rng, (n - k) as nat).0) =~= v@
                + gen_elems_spec(*rng, (n - k) as nat).0);
        }
    }
    proof {
        assert(gen_elems_spec(*old(rng), n as nat).0 =~= v@);
    }
    v
}

/// Generating a compound value whose components have the given word
/// counts: one split child per component, and the component's words
/// from that child alone.  Yields the components and the parent's
/// final state.
pub open spec fn gen_components_spec<R: SplitRng>(g: R, lens: Seq<usize>) -> (Seq<Seq<u64>>, R)
    decreases lens.len(),
{
    if lens.len() == 0 {
        (Seq::empty(), g)
    } else {
        let (g1, c) = g.split_spec();
        let comp = gen_elems_spec(c, lens[0] as nat).0;
        let (rest, gn) = gen_components_spec(g1, lens.drop_first());
        (seq![comp] + rest, gn)
    }
}

/// Generate a compound value: component `k` gets `lens[k]` words from
/// its own split child.
pub fn split_rand_components<R: SplitRng>(rng: &mut R, lens: &Vec<usize>) -> (v: Vec<Vec<u64>>)
    ensures
        (v.deep_view(), *final(rng)) == gen_components_spec(*old(rng), lens@),
{
    let mut v: Vec<Vec<u64>> = Vec::new();
    let mut k: usize = 0;
    proof {
        assert(lens@.skip(0) =~= lens@);
    }
    while k < lens.len()
        invariant
            k <= lens@.len(),
            v.deep_view().len() == k as nat,
            gen_components_spec(*old(rng), lens@).0 == v.deep_view() + gen_components_spec(
                *rng,
                lens@.skip(k as int),
            ).0,
            gen_components_spec(*old(rng), lens@).1 == gen_components_spec(
                *rng,
                lens@.skip(k as int),
            ).1,
        decreases lens@.len() - k,
    {
        let ghost prev = *rng;
        let ghost vprev = v.deep_view();
        let mut c = rng.split();
        let comp = split_rand_words(&mut c, lens[k]);
        v.push(comp);
        k += 1;
        proof {
            assert(lens@.skip(k - 1).drop_first() =~= lens@.skip(k as int));
            assert(lens@.skip(k - 1)[0] == lens@[k - 1]);
            assert(gen_components_spec(prev, lens@.skip(k - 1)).0 == seq![comp@]
                + gen_components_spec(*rng, lens@.skip(k as int)).0);
            assert(v.deep_view() =~~= vprev.push(comp@));
            assert(vprev + (seq![comp@] + gen_components_spec(*rng, lens@.skip(k as int)).0)
                =~= v.deep_view() + gen_components_spec(*rng, lens@.skip(k as int)).0);
        }
    }
    proof {
        assert(lens@.skip(lens@.len() as int) =~= Seq::<usize>::empty());
        assert(gen_components_spec(*old(rng), lens@).0 =~= v.deep_view());
    }
    v
}

/// Every compound value has exactly one component per requested
/// length.
pub proof fn lemma_components_len<R: SplitRng>(g: R, lens: Seq<usize>)
    ensures
        gen_components_spec(g, lens).0.len() == lens.len(),
    decreases lens.len(),
{
    if lens.len() > 0 {
        lemma_components_len(g.split_spec().0, lens.drop_first());
    }
}

/// Component independence: starting two generators from one state and
/// generating compound values whose component lengths agree at
/// position `k`, component `k` comes out the same in both — even
/// though every other component's length (and so its bit consumption)
/// may differ.  Component `k` is a function of the initial state, of
/// `k`, and of its own length alone.
pub proof fn lemma_component_independence<R: SplitRng>(
    g: R,
    lens_a: Seq<usize>,
    lens_b: Seq<usize>,
    k: int,
)
    requires
        0 <= k < lens_a.len(),
        k < lens_b.len(),
        lens_a[k] == lens_b[k],
    ensures
        gen_components_spec(g, lens_a).0[k] == gen_components_spec(g, lens_b).0[k],
    decreases k,
{
    lemma_components_len(g, lens_a);
    lemma_components_len(g, lens_b);
    if k > 0 {
        lemma_component_independence(
            g.split_spec().0,
            lens_a.drop_first(),
            lens_b.drop_first(),
            k - 1,
        );
    }
}

/// The parent generator's state after generating a compound value
/// depends only on the number of components, never on their lengths
/// or contents: the same generator can go on to generate further
/// values whatever was generated before.
pub proof fn lemma_components_state_depends_on_arity<R: SplitRng>(
    g: R,
    lens_a: Seq<usize>,
    lens_b: Seq<usize>,
)
    requires
        lens_a.len() == lens_b.len(),
    ensures
        gen_components_spec(g, lens_a).1 == gen_components_spec(g, lens_b).1,
    decreases lens_a.len(),
{
    if lens_a.len() > 0 {
        lemma_components_state_depends_on_arity(
            g.split_spec().0,
            lens_a.drop_first(),
            lens_b.drop_first(),
        );
    }
}

/// A deterministic pseudo-random function from word blocks to word
/// blocks, generated off a splittable source.
///
/// Two hash keys and a branch factory are frozen at construction
/// time; a call hashes the argument to an index under those keys and
/// generates `out_len` words from the generator the factory maps that
/// index to.  Same argument, same result — but every freshly
/// generated `WordFn` realizes a different mapping.
pub struct WordFn<R: SplitRng> {
    pub k0: u64,
    pub k1: u64,
    pub prf: R::Prf,
    pub out_len: usize,
}

/// The block a [`WordFn`] maps an argument to.
pub open spec fn word_fn_spec<R: SplitRng>(f: WordFn<R>, arg: Seq<u64>) -> Seq<u64> {
    words64(f.prf.call_spec(sip_hash_words_spec(f.k0, f.k1, arg) as u32), f.out_len as nat)
}

/// The state transition of generating a [`WordFn`]: two key words are
/// drawn sequentially, then the branch factory is split off.
pub open spec fn split_rand_fn_spec<R: SplitRng>(g: R, out_len: usize) -> (R, WordFn<R>) {
    let (k0, g) = g.step64_spec();
    let (k1, g) = g.step64_spec();
    let (g, prf) = g.splitn_spec();
    (g, WordFn { k0, k1, prf, out_len })
}

/// Generate a deterministic function from word blocks to blocks of
/// `out_len` words.
pub fn split_rand_fn<R: SplitRng>(rng: &mut R, out_len: usize) -> (f: WordFn<R>)
    ensures
        (*final(rng), f) == split_rand_fn_spec(*old(rng), out_len),
{
    let k0 = rng.next_u64();
    let k1 = rng.next_u64();
    let prf = rng.splitn();
    WordFn { k0, k1, prf, out_len }
}

impl<R: SplitRng> WordFn<R> {
    /// Apply the function: a pure mapping from the argument words to
    /// `out_len` result words.
    pub fn call(&self, arg: &Vec<u64>) -> (out: Vec<u64>)
        ensures
            out@ == word_fn_spec::<R>(*self, arg@),
    {
        let h = sip_hash_words(self.k0, self.k1, arg);
        let i = #[verifier::truncate] (h as u32);
        let mut g = self.prf.call(i);
        gen_words(&mut g, self.out_len)
    }
}

} // verus!
