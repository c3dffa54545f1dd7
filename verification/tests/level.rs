use deejay::level::{HALF_BITS, INFINITY_BITS, NEGATIVE_INFINITY_BITS, ONE_BITS, SIGN_BIT};
use deejay::Level;

fn level(value: f32) -> Level {
    Level { bits: value.to_bits() }
}

fn samples() -> Vec<f32> {
    vec![
        0.0,
        -0.0,
        1.0,
        -1.0,
        0.5,
        0.25,
        0.8,
        1.5,
        0.999_999_94,
        1.000_000_1,
        -1.0e-45,
        1.0e-45,
        1.175_494_4e-38,
        -1.175_494_4e-38,
        3.402_823_5e38,
        -3.402_823_5e38,
        f32::INFINITY,
        f32::NEG_INFINITY,
        f32::MIN_POSITIVE,
        f32::EPSILON,
        2.0,
        -0.5,
        123_456.79,
        -7.0e-10,
    ]
}

#[test]
fn named_patterns_are_those_of_the_numbers() {
    assert_eq!(Level::zero().bits, 0.0f32.to_bits());
    assert_eq!(Level::half().bits, 0.5f32.to_bits());
    assert_eq!(Level::one().bits, 1.0f32.to_bits());
    assert_eq!(HALF_BITS, 0.5f32.to_bits());
    assert_eq!(ONE_BITS, 1.0f32.to_bits());
    assert_eq!(SIGN_BIT, (-0.0f32).to_bits());
    assert_eq!(INFINITY_BITS, f32::INFINITY.to_bits());
    assert_eq!(NEGATIVE_INFINITY_BITS, f32::NEG_INFINITY.to_bits());
}

#[test]
fn is_nan_agrees_with_the_number() {
    for value in samples() {
        assert_eq!(level(value).is_nan(), value.is_nan());
    }
    assert!(level(f32::NAN).is_nan());
    assert!(Level { bits: 0x7f80_0001 }.is_nan());
    assert!(Level { bits: 0x7fff_ffff }.is_nan());
    assert!(Level { bits: 0xff80_0001 }.is_nan());
    assert!(Level { bits: 0xffff_ffff }.is_nan());
    assert!(!Level { bits: 0x7f80_0000 }.is_nan());
    assert!(!Level { bits: 0xff80_0000 }.is_nan());
    assert!(!Level { bits: 0x7f7f_ffff }.is_nan());
}

#[test]
fn clamp_unit_agrees_with_the_number() {
    for value in samples() {
        let expected = value.clamp(0.0, 1.0);
        let stored = level(value).clamp_unit();
        assert_eq!(stored.bits, expected.to_bits());
    }
}

#[test]
fn clamp_unit_takes_the_nearer_bound() {
    assert_eq!(level(-0.25).clamp_unit(), Level::zero());
    assert_eq!(level(f32::NEG_INFINITY).clamp_unit(), Level::zero());
    assert_eq!(level(-1.0e-45).clamp_unit(), Level::zero());
    assert_eq!(level(1.25).clamp_unit(), Level::one());
    assert_eq!(level(f32::INFINITY).clamp_unit(), Level::one());
    assert_eq!(level(1.000_000_1).clamp_unit(), Level::one());
    assert_eq!(level(0.0).clamp_unit(), level(0.0));
    assert_eq!(level(1.0).clamp_unit(), level(1.0));
    assert_eq!(level(0.25).clamp_unit(), level(0.25));
    assert_eq!(level(0.999_999_94).clamp_unit(), level(0.999_999_94));
}

#[test]
fn clamp_unit_stores_zero_for_what_is_not_a_number() {
    let quiet = Level { bits: 0x7fc0_0000 };
    let negative = Level { bits: 0xffc0_0001 };
    assert_eq!(quiet.clamp_unit(), Level::zero());
    assert_eq!(negative.clamp_unit(), Level::zero());
    assert_eq!(level(f32::NAN).clamp_unit(), Level::zero());
    assert_eq!(Level { bits: 0x7f80_0001 }.clamp_unit(), Level::zero());
    assert_eq!(Level { bits: 0x7fff_ffff }.clamp_unit(), Level::zero());
    assert_eq!(Level { bits: 0xff80_0001 }.clamp_unit(), Level::zero());
    assert_eq!(Level { bits: 0xffff_ffff }.clamp_unit(), Level::zero());
}

#[test]
fn clamp_unit_stores_a_number_in_range_for_every_kind_of_pattern() {
    let mut patterns = vec![0u32, 1, 0x007f_ffff, 0x0080_0000, 0x3f7f_ffff, 0x3f80_0000];
    patterns.extend([0x3f80_0001u32, 0x7f7f_ffff, 0x7f80_0000, 0x7f80_0001, 0x7fc0_0000]);
    patterns.extend([0x7fff_ffffu32, 0x8000_0000, 0x8000_0001, 0xbf80_0000, 0xff7f_ffff]);
    patterns.extend([0xff80_0000u32, 0xff80_0001, 0xffc0_0000, 0xffff_ffff]);
    for bits in patterns {
        let stored = f32::from_bits(Level { bits }.clamp_unit().bits);
        assert!(!stored.is_nan(), "{bits:#x}");
        assert!((0.0..=1.0).contains(&stored), "{bits:#x}");
    }
}

#[test]
fn clamp_unit_keeps_negative_zero() {
    assert_eq!(level(-0.0).clamp_unit().bits, SIGN_BIT);
}

#[test]
fn clamp_non_negative_agrees_with_the_number() {
    for value in samples() {
        if value != 0.0 {
            let expected = value.max(0.0);
            let stored = level(value).clamp_non_negative();
            assert_eq!(stored.bits, expected.to_bits());
        }
    }
}

#[test]
fn clamp_non_negative_stores_zero_for_what_is_below_zero() {
    assert_eq!(level(-0.5).clamp_non_negative(), Level::zero());
    assert_eq!(level(-1.0e-45).clamp_non_negative(), Level::zero());
    assert_eq!(level(f32::NEG_INFINITY).clamp_non_negative(), Level::zero());
    assert_eq!(level(-0.0).clamp_non_negative(), Level::zero());
    assert_eq!(level(0.0).clamp_non_negative(), Level::zero());
}

#[test]
fn clamp_non_negative_stores_zero_for_what_is_not_a_number() {
    assert_eq!(level(f32::NAN).clamp_non_negative(), Level::zero());
    assert_eq!(Level { bits: 0x7f80_0001 }.clamp_non_negative(), Level::zero());
    assert_eq!(Level { bits: 0xffff_ffff }.clamp_non_negative(), Level::zero());
    assert_eq!(f32::NAN.max(0.0).to_bits(), 0);
}

#[test]
fn clamp_non_negative_keeps_what_is_zero_or_more() {
    assert_eq!(level(1.5).clamp_non_negative(), level(1.5));
    assert_eq!(level(f32::INFINITY).clamp_non_negative(), level(f32::INFINITY));
    assert_eq!(level(1.0e-45).clamp_non_negative(), level(1.0e-45));
}

#[test]
fn clamps_are_idempotent() {
    for value in samples() {
        let unit = level(value).clamp_unit();
        assert_eq!(unit.clamp_unit(), unit);
        let gain = level(value).clamp_non_negative();
        assert_eq!(gain.clamp_non_negative(), gain);
    }
}

#[test]
fn order_of_patterns_is_order_of_numbers_from_zero_up() {
    let values = samples();
    for a in &values {
        for b in &values {
            if *a >= 0.0 && *b >= 0.0 && a.is_sign_positive() && b.is_sign_positive() {
                assert_eq!(a.to_bits() <= b.to_bits(), a <= b);
            }
        }
    }
}
