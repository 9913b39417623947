//! Tests for the type-directed generation layer.

use rand_split::gen_words;
use rand_split::siprng::SipRng;
use rand_split::splitrand::split_rand_components;
use rand_split::splitrand::split_rand_fn;
use rand_split::splitrand::split_rand_words;
use rand_split::splitrand::Sequential;
use rand_split::twolcg::TwoLcgRng;
use rand_split::Split;
use rand_split::SplitRng;

type Composite = Split<TwoLcgRng>;

/// The flagship scenario: two composites built from equal seeds
/// generate pairs whose first components have different lengths; the
/// second components must still be identical, and the parents must end
/// in the same state.
#[test]
fn second_component_survives_first_component_change() {
    let seed = (1234567890u64, 987654321u64);
    let mut r1 = Composite::from_seed(seed);
    let mut r2 = Composite::from_seed(seed);

    let a = split_rand_components(&mut r1, &vec![16usize, 16]);
    let b = split_rand_components(&mut r2, &vec![32usize, 16]);

    assert_eq!(a[1], b[1]);
    assert_eq!(a[0].len(), 16);
    assert_eq!(b[0].len(), 32);
    assert!(a[0] != b[0]);
    assert_eq!(gen_words(&mut r1, 8), gen_words(&mut r2, 8));
}

/// The same scenario on a bare backend: component `k` depends only on
/// its position and its own length.
#[test]
fn component_at_position_is_stable() {
    let mut r1 = SipRng::new(2, 3);
    let mut r2 = SipRng::new(2, 3);
    let a = split_rand_components(&mut r1, &vec![4usize, 9, 6]);
    let b = split_rand_components(&mut r2, &vec![31usize, 9, 2]);
    assert_eq!(a[1], b[1]);
}

/// Each word of a block comes from its own split child, so a longer
/// block extends a shorter one.
#[test]
fn word_blocks_are_prefix_stable() {
    let mut r1 = SipRng::new(14, 15);
    let mut r2 = SipRng::new(14, 15);
    let a = split_rand_words(&mut r1, 5);
    let b = split_rand_words(&mut r2, 9);
    assert_eq!(a.len(), 5);
    assert_eq!(b.len(), 9);
    assert_eq!(a[..], b[..5]);
}

/// Generating nothing leaves the generator where it was.
#[test]
fn empty_generation_is_neutral() {
    let mut r1 = SipRng::new(6, 6);
    let mut r2 = SipRng::new(6, 6);
    let v = split_rand_words(&mut r1, 0);
    assert_eq!(v.len(), 0);
    let c = split_rand_components(&mut r1, &Vec::new());
    assert_eq!(c.len(), 0);
    assert_eq!(gen_words(&mut r1, 4), gen_words(&mut r2, 4));
}

/// A generated function maps equal arguments to equal results, and
/// different arguments to different results.
#[test]
fn word_fn_is_referentially_transparent() {
    let mut r = SipRng::new(77, 88);
    let f = split_rand_fn(&mut r, 8);
    let x = vec![1u64, 2, 3];
    let y = vec![1u64, 2, 4];
    let fx = f.call(&x);
    assert_eq!(fx.len(), 8);
    assert_eq!(fx, f.call(&x));
    assert!(f.call(&y) != fx);
}

/// Two functions generated from different generator states realize
/// different mappings.
#[test]
fn word_fns_differ_between_instances() {
    let mut r = SipRng::new(123, 321);
    let f = split_rand_fn(&mut r, 4);
    let g = split_rand_fn(&mut r, 4);
    let x = vec![42u64];
    assert!(f.call(&x) != g.call(&x));
}

/// Sequentially generated values come straight off the word stream.
#[test]
fn sequential_values_match_the_stream() {
    let mut a = SipRng::new(31, 41);
    let mut b = SipRng::new(31, 41);
    let Sequential(w) = Sequential::<u64>::split_rand(&mut a);
    assert_eq!(w, b.next_u64());
    let Sequential(x) = Sequential::<u32>::split_rand(&mut a);
    assert_eq!(x, b.next_u32());
}
