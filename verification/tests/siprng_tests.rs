//! Tests for the SipHash-based splittable generator.

use rand::os::OsRng;
use rand::Rng;
use rand_split::fill_bytes;
use rand_split::gen_words;
use rand_split::rotl64;
use rand_split::siprng::SipRng;
use rand_split::siprng::{C0, C1, C2, C3};
use rand_split::splitrand::split_rand_components;
use rand_split::splitrand::split_rand_fn;
use rand_split::splitrand::split_rand_words;
use rand_split::SplitPrf;
use rand_split::SplitRng;

fn sip_seed() -> (u64, u64) {
    let mut osrng = OsRng::new().ok().expect("Could not create OsRng");
    (osrng.gen(), osrng.gen())
}

fn sip_rng() -> SipRng {
    let (k0, k1) = sip_seed();
    SipRng::new(k0, k1)
}

/// Generation of tuple components with the split-directed layer is
/// independent: each component depends on its position and its own
/// length, not on the other components.
fn sip_check_independence<R: SplitRng>(rng: &mut R) {
    let prf = rng.splitn();
    let i: u32 = rng.next_u32();
    let mut ra = prf.call(i);
    let mut rb = prf.call(i);
    let mut rc = prf.call(i);
    let mut rd = prf.call(i);

    assert_eq!(gen_words(&mut ra, 100), gen_words(&mut rb, 100));
    assert_eq!(gen_words(&mut rc, 100), gen_words(&mut rd, 100));
    assert_eq!(gen_words(&mut ra, 100), gen_words(&mut rc, 100));
    assert_eq!(gen_words(&mut rb, 100), gen_words(&mut rd, 100));

    for _ in 0..100 {
        let a = split_rand_components(&mut ra, &vec![16usize, 16]);
        let b = split_rand_components(&mut rb, &vec![16usize, 32]);
        let c = split_rand_components(&mut rc, &vec![32usize, 16]);
        let d = split_rand_components(&mut rd, &vec![32usize, 32]);

        assert_eq!(a[0], b[0]);
        assert_eq!(a[1], c[1]);
        assert_eq!(b[1], d[1]);
        assert_eq!(c[0], d[0]);
        assert!(a[0] != a[1]);
        assert!(a[0] != c[1]);
        assert!(d[0] != d[1]);
    }
}

/// Generated functions are referentially transparent: two functions
/// generated from identical generator states agree on every argument.
fn sip_check_closure<R: SplitRng>(rng: &mut R) {
    let prf = rng.splitn();
    let i: u32 = rng.next_u32();
    let mut ga = prf.call(i);
    let mut gb = prf.call(i);
    let fa = split_rand_fn(&mut ga, 8);
    let fb = split_rand_fn(&mut gb, 8);
    for _ in 0..100 {
        let x = split_rand_words(rng, 8);
        let ya = fa.call(&x);
        let yb = fb.call(&x);
        assert_eq!(ya, yb);
    }
}

/// Splitting a generator produces reproducible sequential results.
fn sip_check_split<R: SplitRng>(rng: &mut R) {
    let prf = rng.splitn();
    let i: u32 = rng.next_u32();
    let mut ra0 = prf.call(i);
    let mut rb0 = prf.call(i);

    assert_eq!(gen_words(&mut ra0, 100), gen_words(&mut rb0, 100));

    let mut ra1 = ra0.split();
    let mut rb1 = rb0.split();

    assert_eq!(gen_words(&mut ra0, 100), gen_words(&mut rb0, 100));
    assert_eq!(gen_words(&mut ra1, 100), gen_words(&mut rb1, 100));
}

#[test]
fn siprng_test_split_rand_independence() {
    sip_check_independence(&mut sip_rng());
}

#[test]
fn siprng_test_split_rand_closure() {
    sip_check_closure(&mut sip_rng());
}

#[test]
fn siprng_test_split_rand_split() {
    sip_check_split(&mut sip_rng());
}

#[test]
fn siprng_test_rng_rand_seeded() {
    let seed = sip_seed();
    let mut ra = SipRng::from_seed(seed);
    let mut rb = SipRng::from_seed(seed);
    assert_eq!(gen_words(&mut ra, 100), gen_words(&mut rb, 100));
}

#[test]
fn siprng_test_rng_seeded() {
    let seed = sip_seed();
    let mut ra = SipRng::from_seed(seed);
    let mut rb = SipRng::from_seed(seed);
    assert_eq!(gen_words(&mut ra, 100), gen_words(&mut rb, 100));
}

#[test]
fn siprng_test_rng_reseed() {
    let seed = sip_seed();
    let mut r = SipRng::from_seed(seed);
    let s1 = gen_words(&mut r, 100);
    r.reseed(seed);
    let s2 = gen_words(&mut r, 100);
    assert_eq!(s1, s2);
}

/// Fixed-seed reseed round trip: generating, reseeding with the same
/// seed and generating again yields identical 100-word sequences.
#[test]
fn siprng_concrete_seed_reseed_roundtrip() {
    let seed = (1234567890u64, 987654321u64);
    let mut r = SipRng::from_seed(seed);
    let s1 = gen_words(&mut r, 100);
    r.reseed(seed);
    let s2 = gen_words(&mut r, 100);
    assert_eq!(s1.len(), 100);
    assert_eq!(s1, s2);
}

/// A clone taken mid-stream produces the exact same next words as the
/// original.
#[test]
fn siprng_clone_midstream() {
    let mut r = SipRng::new(0x1234_5678_9abc_def0, 42);
    gen_words(&mut r, 37);
    let mut c = r.clone();
    assert_eq!(gen_words(&mut r, 16), gen_words(&mut c, 16));
}

/// Distinct branch indices give streams that differ within the first
/// few words.
#[test]
fn siprng_branch_indices_differ() {
    let mut r = SipRng::new(7, 9);
    let prf = r.splitn();
    let mut g0 = prf.call(0);
    let mut g1 = prf.call(1);
    assert!(gen_words(&mut g0, 4) != gen_words(&mut g1, 4));
}

/// Advancing past the counter maximum descends into branch 0 — the
/// same transition a parent makes when it splits — and restarts the
/// counter there, instead of wrapping in place.
#[test]
fn siprng_counter_wrap_descends() {
    let mut g = SipRng { v0: 11, v1: 22, v2: 33, v3: 44, ctr: u32::MAX, len: 0 };
    let mut h = g.clone();
    let _ = g.next_u64();
    assert_eq!(g.ctr, 0);
    assert_eq!(g.len, 2);
    let _child = h.split();
    assert_eq!(gen_words(&mut g, 16), gen_words(&mut h, 16));
}

/// Bytes come out as consecutive 64-bit words packed little-endian,
/// with the last word truncated.
#[test]
fn siprng_fill_bytes_packs_words() {
    let mut a = SipRng::new(5, 6);
    let mut b = SipRng::new(5, 6);
    let mut bytes = vec![0u8; 19];
    fill_bytes(&mut a, &mut bytes);
    let ws = gen_words(&mut b, 3);
    for i in 0..19 {
        assert_eq!(bytes[i], ((ws[i / 8] >> (8 * (i % 8))) & 0xff) as u8);
    }
}

/// The 32-bit stream is the truncation of the 64-bit stream.
#[test]
fn siprng_u32_truncates_u64() {
    let mut a = SipRng::new(8, 15);
    let mut b = SipRng::new(8, 15);
    for _ in 0..10 {
        assert_eq!(a.next_u32() as u64, b.next_u64() & 0xffff_ffff);
    }
}

fn sip_ref_round(v: (u64, u64, u64, u64)) -> (u64, u64, u64, u64) {
    let (mut v0, mut v1, mut v2, mut v3) = v;
    v0 = v0.wrapping_add(v1);
    v2 = v2.wrapping_add(v3);
    v1 = v1.rotate_left(13);
    v3 = v3.rotate_left(16);
    v1 ^= v0;
    v3 ^= v2;
    v0 = v0.rotate_left(32);
    v2 = v2.wrapping_add(v1);
    v0 = v0.wrapping_add(v3);
    v1 = v1.rotate_left(17);
    v3 = v3.rotate_left(21);
    v1 ^= v2;
    v3 ^= v0;
    v2 = v2.rotate_left(32);
    (v0, v1, v2, v3)
}

/// The first output word matches an independent transcription of the
/// SipHash construction: absorb the zero counter block, then finalize
/// with the length constant for one block.
#[test]
fn siprng_first_word_matches_reference() {
    let (k0, k1) = (11u64, 13u64);
    let mut v = (k0 ^ C0, k1 ^ C1, k0 ^ C2, k1 ^ C3);

    // Counter block, counter value 0.
    v.3 ^= 0;
    v = sip_ref_round(sip_ref_round(v));
    v.0 ^= 0;

    // Finalization with one block on record: length constant first...
    let lenblock = 8u64 << 59;
    v.3 ^= lenblock;
    v = sip_ref_round(sip_ref_round(v));
    v.0 ^= lenblock;

    // ... then the 0xff injection and four more rounds.
    v.2 ^= 0xff;
    v = sip_ref_round(sip_ref_round(sip_ref_round(sip_ref_round(v))));
    let expected = v.0 ^ v.1 ^ v.2 ^ v.3;

    let mut g = SipRng::new(k0, k1);
    assert_eq!(g.next_u64(), expected);
}

#[test]
fn rotl64_known_values() {
    assert_eq!(rotl64(1, 0), 1);
    assert_eq!(rotl64(1, 63), 1u64 << 63);
    assert_eq!(rotl64(0x8000_0000_0000_0000, 1), 1);
    assert_eq!(rotl64(0x0123_4567_89ab_cdef, 32), 0x89ab_cdef_0123_4567);
}
