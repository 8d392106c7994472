use moon::fixed::Fixed;
use moon::math::{Color32, Vec2};
use moon::random::{Rng, GAMMA};

fn fx(raw: i64) -> Fixed {
    Fixed::new(raw)
}

#[test]
fn generator_hands_out_the_splitmix_sequence() {
    let mut rng = Rng::new(0);
    assert_eq!(rng.next_u64(), 0xE220_A839_7B1D_CDAF);
    assert_eq!(rng.next_u64(), 0x6E78_9E6A_A1B9_65F4);
    assert_eq!(rng.next_u64(), 0x06C4_5D18_8009_454F);
}

#[test]
fn generator_state_advances_by_gamma() {
    let mut rng = Rng::new(5);
    assert_eq!(rng.state(), 5);
    rng.next_u64();
    assert_eq!(rng.state(), 5u64.wrapping_add(GAMMA));
    rng.next_u64();
    assert_eq!(rng.state(), 5u64.wrapping_add(GAMMA).wrapping_add(GAMMA));
    let mut high = Rng::new(u64::MAX);
    high.next_u64();
    assert_eq!(high.state(), GAMMA - 1);
}

#[test]
fn same_seed_gives_the_same_words() {
    let mut a = Rng::new(0xDEAD_BEEF);
    let mut b = Rng::new(0xDEAD_BEEF);
    for _ in 0..100 {
        assert_eq!(a.next_u64(), b.next_u64());
    }
    let mut c = Rng::new(0xDEAD_BEF0);
    assert_ne!(Rng::new(0xDEAD_BEEF).next_u64(), c.next_u64());
}

#[test]
fn sample_is_the_share_of_the_span_that_the_word_marks() {
    // The first word from seed 0 is 0xE220A8397B1DCDAF; the span from 0 to
    // 999 has 1000 points, and floor(1000 * word / 2^64) is 883.
    let mut rng = Rng::new(0);
    assert_eq!(Fixed::random_range(fx(0), fx(999), &mut rng), fx(883));
    // The second word is 0x6E789E6AA1B965F4: floor(1000 * word / 2^64) is 431.
    assert_eq!(Fixed::random_range(fx(0), fx(999), &mut rng), fx(431));
    let mut again = Rng::new(0);
    assert_eq!(Fixed::random_range(fx(-500), fx(499), &mut again), fx(383));
}

#[test]
fn sample_takes_its_bounds_in_either_order() {
    let mut forward = Rng::new(0);
    let mut backward = Rng::new(0);
    assert_eq!(
        Fixed::random_range(fx(0), fx(999), &mut forward),
        Fixed::random_range(fx(999), fx(0), &mut backward)
    );
}

#[test]
fn sample_stays_between_its_bounds() {
    let mut rng = Rng::new(7);
    let ranges = [
        (fx(-2_500), fx(2_500)),
        (fx(0), fx(1)),
        (fx(10), fx(-10)),
        (fx(i64::MIN), fx(i64::MAX)),
        (fx(i64::MAX - 1), fx(i64::MAX)),
        (fx(i64::MIN), fx(i64::MIN + 1)),
    ];
    for (min, max) in ranges {
        let lo = min.min(max);
        let hi = min.max(max);
        for _ in 0..200 {
            let value = Fixed::random_range(min, max, &mut rng);
            assert!(lo <= value && value <= hi);
        }
    }
}

#[test]
fn sample_of_equal_bounds_is_the_bound_and_still_draws() {
    let mut rng = Rng::new(99);
    for raw in [0, 1, -1, 200_000, i64::MAX, i64::MIN] {
        let before = rng.state();
        assert_eq!(Fixed::random_range(fx(raw), fx(raw), &mut rng), fx(raw));
        assert_eq!(rng.state(), before.wrapping_add(GAMMA));
    }
}

#[test]
fn sample_reaches_both_bounds_of_a_small_range() {
    let mut rng = Rng::new(3);
    let mut seen = [false; 3];
    for _ in 0..200 {
        let value = Fixed::random_range(fx(-1), fx(1), &mut rng);
        seen[(value.raw + 1) as usize] = true;
    }
    assert_eq!(seen, [true, true, true]);
}

#[test]
fn vector_sample_draws_x_then_y() {
    let min = Vec2::new(fx(0), fx(0));
    let max = Vec2::new(fx(999), fx(999));
    let mut rng = Rng::new(0);
    let v = Vec2::random_range(min, max, &mut rng);
    assert_eq!(v, Vec2::new(fx(883), fx(431)));
    let mut expected = Rng::new(0);
    expected.next_u64();
    expected.next_u64();
    assert_eq!(rng.state(), expected.state());
}

#[test]
fn color_sample_draws_one_word_per_channel() {
    let min = Color32(fx(0), fx(0), fx(0), fx(0));
    let max = Color32(fx(999), fx(999), fx(999), fx(999));
    let mut rng = Rng::new(0);
    let c = Color32::random_range(min, max, &mut rng);
    let mut again = Rng::new(0);
    let r = Fixed::random_range(fx(0), fx(999), &mut again);
    let g = Fixed::random_range(fx(0), fx(999), &mut again);
    let b = Fixed::random_range(fx(0), fx(999), &mut again);
    let a = Fixed::random_range(fx(0), fx(999), &mut again);
    assert_eq!(c, Color32(r, g, b, a));
    assert_eq!(c.0, fx(883));
    assert_eq!(c.1, fx(431));
    assert_eq!(rng.state(), again.state());
}
