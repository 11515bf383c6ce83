use lib::binary32::{abs, is_finite, less_than};
use lib::values::{validate_value, Affinity, Aggression, Confidence, Impact, PadValue, ValueError};

fn bits(value: f32) -> u32 {
    value.to_bits()
}

#[test]
fn normalized_values_validate_ranges_and_normalize_negative_zero() {
    assert_eq!(f32::from_bits(Affinity::new(bits(-1.0)).unwrap().value()), -1.0);
    assert_eq!(f32::from_bits(Impact::new(bits(1.0)).unwrap().value()), 1.0);
    assert_eq!(f32::from_bits(Aggression::new(bits(0.0)).unwrap().value()), 0.0);
    assert_eq!(f32::from_bits(Confidence::new(bits(1.0)).unwrap().value()), 1.0);
    assert_eq!(PadValue::new(bits(-0.0)).unwrap().value(), 0.0f32.to_bits());

    assert_eq!(Affinity::new(bits(-1.000_000_1)), Err(ValueError::OutOfRange));
    assert_eq!(Affinity::new(bits(1.000_000_1)), Err(ValueError::OutOfRange));
    assert_eq!(Impact::new(bits(-1.000_000_1)), Err(ValueError::OutOfRange));
    assert_eq!(Impact::new(bits(1.000_000_1)), Err(ValueError::OutOfRange));
    assert_eq!(Aggression::new(bits(-f32::EPSILON)), Err(ValueError::OutOfRange));
    assert_eq!(Aggression::new(bits(1.000_000_1)), Err(ValueError::OutOfRange));
    assert_eq!(Confidence::new(bits(-f32::EPSILON)), Err(ValueError::OutOfRange));
    assert_eq!(Confidence::new(bits(1.000_000_1)), Err(ValueError::OutOfRange));
    assert_eq!(Confidence::new(bits(f32::NAN)), Err(ValueError::NonFinite));
    assert_eq!(Impact::new(bits(f32::INFINITY)), Err(ValueError::NonFinite));
    assert_eq!(PadValue::new(bits(f32::NEG_INFINITY)), Err(ValueError::NonFinite));
}

#[test]
fn unsigned_ranges_accept_negative_zero_as_zero() {
    assert_eq!(Aggression::new(bits(-0.0)).unwrap().value(), 0);
    assert_eq!(Confidence::new(bits(-0.0)).unwrap().value(), 0);
    assert_eq!(Aggression::new(bits(-1.0e-45)), Err(ValueError::OutOfRange));
}

#[test]
fn values_inside_the_range_keep_their_pattern() {
    for value in [-1.0f32, -0.5, -1.0e-45, 1.0e-45, 0.25, 0.999_999_9, 1.0] {
        assert_eq!(Affinity::new(bits(value)).unwrap().value(), bits(value));
        assert_eq!(Impact::new(bits(value)).unwrap().value(), bits(value));
        assert_eq!(PadValue::new(bits(value)).unwrap().value(), bits(value));
    }
    for value in [0.0f32, 1.0e-45, 0.4, 0.75, 1.0] {
        assert_eq!(Aggression::new(bits(value)).unwrap().value(), bits(value));
        assert_eq!(Confidence::new(bits(value)).unwrap().value(), bits(value));
    }
}

#[test]
fn validate_value_checks_arbitrary_ranges() {
    let two = bits(2.0);
    let minus_three = bits(-3.0);
    assert_eq!(validate_value(bits(1.5), minus_three, two), Ok(bits(1.5)));
    assert_eq!(validate_value(bits(-3.0), minus_three, two), Ok(bits(-3.0)));
    assert_eq!(validate_value(bits(2.5), minus_three, two), Err(ValueError::OutOfRange));
    assert_eq!(validate_value(bits(-3.5), minus_three, two), Err(ValueError::OutOfRange));
    assert_eq!(validate_value(bits(-0.0), minus_three, two), Ok(0));
    assert_eq!(validate_value(bits(f32::NAN), minus_three, two), Err(ValueError::NonFinite));
    assert_eq!(validate_value(0x7F80_0001, minus_three, two), Err(ValueError::NonFinite));
}

#[test]
fn binary32_comparisons_follow_the_numbers() {
    let samples = [
        -1.0e30f32, -2.0, -1.0, -0.5, -1.0e-45, -0.0, 0.0, 1.0e-45, 1.0e-38, 0.4, 0.75, 1.0, 3.0e38,
    ];
    for a in samples {
        assert!(is_finite(bits(a)));
        for b in samples {
            assert_eq!(less_than(bits(a), bits(b)), a < b, "{a} < {b}");
        }
        assert_eq!(f32::from_bits(abs(bits(a))), a.abs());
    }
    assert!(!is_finite(bits(f32::INFINITY)));
    assert!(!is_finite(bits(f32::NEG_INFINITY)));
    assert!(!is_finite(bits(f32::NAN)));
}
