//! Tests for the TwoLCG splittable generator.

use rand::os::OsRng;
use rand::Rng;
use rand_split::gen_words;
use rand_split::splitrand::split_rand_components;
use rand_split::splitrand::split_rand_fn;
use rand_split::splitrand::split_rand_words;
use rand_split::twolcg::TwoLcgRng;
use rand_split::twolcg::C0;
use rand_split::twolcg::C1;
use rand_split::twolcg::C2;
use rand_split::SplitPrf;
use rand_split::SplitRng;

fn lcg_seed() -> [u64; 4] {
    let mut osrng = OsRng::new().ok().expect("Could not create OsRng");
    [osrng.gen(), osrng.gen(), osrng.gen(), osrng.gen()]
}

fn lcg_rng() -> TwoLcgRng {
    let s = lcg_seed();
    TwoLcgRng::new(s[0], s[1], s[2], s[3])
}

fn lcg_check_independence<R: SplitRng>(rng: &mut R) {
    let prf = rng.splitn();
    let i: u32 = rng.next_u32();
    let mut ra = prf.call(i);
    let mut rb = prf.call(i);
    let mut rc = prf.call(i);
    let mut rd = prf.call(i);

    assert_eq!(gen_words(&mut ra, 100), gen_words(&mut rb, 100));
    assert_eq!(gen_words(&mut rc, 100), gen_words(&mut rd, 100));
    assert_eq!(gen_words(&mut ra, 100), gen_words(&mut rc, 100));
    assert_eq!(gen_words(&mut rb, 100), gen_words(&mut rd, 100));

    for _ in 0..100 {
        let a = split_rand_components(&mut ra, &vec![16usize, 16]);
        let b = split_rand_components(&mut rb, &vec![16usize, 32]);
        let c = split_rand_components(&mut rc, &vec![32usize, 16]);
        let d = split_rand_components(&mut rd, &vec![32usize, 32]);

        assert_eq!(a[0], b[0]);
        assert_eq!(a[1], c[1]);
        assert_eq!(b[1], d[1]);
        assert_eq!(c[0], d[0]);
        assert!(a[0] != a[1]);
        assert!(a[0] != c[1]);
        assert!(d[0] != d[1]);
    }
}

fn lcg_check_closure<R: SplitRng>(rng: &mut R) {
    let prf = rng.splitn();
    let i: u32 = rng.next_u32();
    let mut ga = prf.call(i);
    let mut gb = prf.call(i);
    let fa = split_rand_fn(&mut ga, 8);
    let fb = split_rand_fn(&mut gb, 8);
    for _ in 0..100 {
        let x = split_rand_words(rng, 8);
        let ya = fa.call(&x);
        let yb = fb.call(&x);
        assert_eq!(ya, yb);
    }
}

fn lcg_check_split<R: SplitRng>(rng: &mut R) {
    let prf = rng.splitn();
    let i: u32 = rng.next_u32();
    let mut ra0 = prf.call(i);
    let mut rb0 = prf.call(i);

    assert_eq!(gen_words(&mut ra0, 100), gen_words(&mut rb0, 100));

    let mut ra1 = ra0.split();
    let mut rb1 = rb0.split();

    assert_eq!(gen_words(&mut ra0, 100), gen_words(&mut rb0, 100));
    assert_eq!(gen_words(&mut ra1, 100), gen_words(&mut rb1, 100));
}

#[test]
fn twolcg_test_split_rand_independence() {
    lcg_check_independence(&mut lcg_rng());
}

#[test]
fn twolcg_test_split_rand_closure() {
    lcg_check_closure(&mut lcg_rng());
}

#[test]
fn twolcg_test_split_rand_split() {
    lcg_check_split(&mut lcg_rng());
}

#[test]
fn twolcg_test_rng_rand_seeded() {
    let seed = lcg_seed();
    let mut ra = TwoLcgRng::from_seed(seed);
    let mut rb = TwoLcgRng::from_seed(seed);
    assert_eq!(gen_words(&mut ra, 100), gen_words(&mut rb, 100));
}

#[test]
fn twolcg_test_rng_seeded() {
    let seed = lcg_seed();
    let mut ra = TwoLcgRng::from_seed(seed);
    let mut rb = TwoLcgRng::from_seed(seed);
    assert_eq!(gen_words(&mut ra, 100), gen_words(&mut rb, 100));
}

#[test]
fn twolcg_test_rng_reseed() {
    let seed = lcg_seed();
    let mut r = TwoLcgRng::from_seed(seed);
    let s1 = gen_words(&mut r, 100);
    r.reseed(seed);
    let s2 = gen_words(&mut r, 100);
    assert_eq!(s1, s2);
}

/// The multipliers are forced odd however the generator is built.
#[test]
fn twolcg_multipliers_forced_odd() {
    let g = TwoLcgRng::new(2, 4, 6, 8);
    assert_eq!(g.g1, 7);
    assert_eq!(g.g2, 9);
    let h = TwoLcgRng::from_seed([0, 0, 0, 0]);
    assert_eq!(h.g1, 1);
    assert_eq!(h.g2, 1);
    let mut p = TwoLcgRng::new(123, 456, 789, 1011);
    let c = p.split();
    assert_eq!(c.g1 & 1, 1);
    assert_eq!(c.g2 & 1, 1);
}

/// One step of the generator follows the documented rotate-combine,
/// multiply and recurrence formulas exactly.
#[test]
fn twolcg_step_formula() {
    let mut g = TwoLcgRng::new(0x0123_4567_89ab_cdef, 0xfedc_ba98_7654_3210, 111, 222);
    let (s1, s2, g1, g2) = (g.s1, g.s2, g.g1, g.g2);
    let w = g.next_u64();

    let r0 = s1.rotate_left(32) ^ s2;
    let r1 = r0.rotate_left(((s1 >> 58) & 0x3f) as u32);
    let r2 = r1.wrapping_mul(C0);
    assert_eq!(w, r2 ^ (r2 >> 32));
    assert_eq!(g.s1, s1.wrapping_mul(C1).wrapping_add(g1));
    assert_eq!(g.s2, s2.wrapping_mul(C2).wrapping_add(g2));
}

/// The branch factory's closed form: the child's seed words are the
/// even multiples `4·k·m, 4·(k+1)·m, 4·(k+2)·m, 4·(k+3)·m` reordered
/// into `(s1, s2, g1, g2)`.
#[test]
fn twolcg_prf_closed_form() {
    let mut r = TwoLcgRng::new(1, 2, 3, 4);
    let prf = r.splitn();
    let g = prf.call(5);
    let m = {
        let mut r2 = TwoLcgRng::new(1, 2, 3, 4);
        r2.next_u64() | 1
    };
    assert_eq!(g.s1, 4u64.wrapping_mul(5).wrapping_mul(m));
    assert_eq!(g.s2, 4u64.wrapping_mul(7).wrapping_mul(m));
    assert_eq!(g.g1, 4u64.wrapping_mul(6).wrapping_mul(m) | 1);
    assert_eq!(g.g2, 4u64.wrapping_mul(8).wrapping_mul(m) | 1);
}

/// A clone taken mid-stream produces the exact same next words as the
/// original.
#[test]
fn twolcg_clone_midstream() {
    let mut r = TwoLcgRng::new(42, 43, 44, 45);
    gen_words(&mut r, 23);
    let mut c = r.clone();
    assert_eq!(gen_words(&mut r, 16), gen_words(&mut c, 16));
}

/// Distinct branch indices give streams that differ within the first
/// few words.
#[test]
fn twolcg_branch_indices_differ() {
    let mut r = TwoLcgRng::new(11, 12, 13, 14);
    let prf = r.splitn();
    let mut g0 = prf.call(1);
    let mut g1 = prf.call(2);
    assert!(gen_words(&mut g0, 4) != gen_words(&mut g1, 4));
}
