use complex::binary64::{equal, is_nan, is_zero, negate, HIDDEN_BIT, INFINITY, ONE, SIGN_BIT};

fn samples() -> Vec<f64> {
    vec![
        0.0,
        -0.0,
        1.0,
        -1.0,
        1.0000000000000002,
        0.5,
        2.94,
        -9.324,
        5e-324,
        -5e-324,
        2.2250738585072014e-308,
        2.225073858507201e-308,
        1.7976931348623157e308,
        -1.7976931348623157e308,
        f64::INFINITY,
        f64::NEG_INFINITY,
        f64::NAN,
        -f64::NAN,
        f64::from_bits(0x7ff0_0000_0000_0001),
        f64::from_bits(0xffff_ffff_ffff_ffff),
    ]
}

#[test]
fn constants_are_the_patterns_they_name() {
    assert_eq!(SIGN_BIT, (-0.0f64).to_bits());
    assert_eq!(INFINITY, f64::INFINITY.to_bits());
    assert_eq!(ONE, 1.0f64.to_bits());
    assert_eq!(HIDDEN_BIT, 1u64 << 52);
    assert_eq!(f64::from_bits(HIDDEN_BIT), f64::MIN_POSITIVE);
}

#[test]
fn nan_test_agrees_with_the_hardware() {
    for x in samples() {
        assert_eq!(is_nan(x.to_bits()), x.is_nan(), "{:?}", x);
    }
    assert!(is_nan(0x7ff0_0000_0000_0001));
    assert!(is_nan(0xfff8_0000_0000_0000));
    assert!(!is_nan(0x7ff0_0000_0000_0000));
    assert!(!is_nan(0xfff0_0000_0000_0000));
    assert!(!is_nan(0x7fef_ffff_ffff_ffff));
}

#[test]
fn zero_test_agrees_with_the_hardware() {
    for x in samples() {
        assert_eq!(is_zero(x.to_bits()), x == 0.0, "{:?}", x);
    }
    assert!(is_zero(0));
    assert!(is_zero(0x8000_0000_0000_0000));
    assert!(!is_zero(1));
    assert!(!is_zero(0x8000_0000_0000_0001));
}

#[test]
fn equality_agrees_with_the_hardware() {
    for x in samples() {
        for y in samples() {
            assert_eq!(equal(x.to_bits(), y.to_bits()), x == y, "{:?} {:?}", x, y);
        }
    }
}

#[test]
fn equality_of_zeros_and_of_nan() {
    assert!(equal(0.0f64.to_bits(), (-0.0f64).to_bits()));
    assert!(equal((-0.0f64).to_bits(), 0.0f64.to_bits()));
    assert!(!equal(f64::NAN.to_bits(), f64::NAN.to_bits()));
    assert!(!equal(1.0f64.to_bits(), (-1.0f64).to_bits()));
    assert!(equal(f64::INFINITY.to_bits(), f64::INFINITY.to_bits()));
    assert!(!equal(f64::INFINITY.to_bits(), f64::NEG_INFINITY.to_bits()));
}

#[test]
fn negation_agrees_with_the_hardware() {
    for x in samples() {
        assert_eq!(negate(x.to_bits()), (-x).to_bits(), "{:?}", x);
    }
    assert_eq!(negate(0), 0x8000_0000_0000_0000);
    assert_eq!(negate(0x8000_0000_0000_0000), 0);
    assert_eq!(negate(ONE), (-1.0f64).to_bits());
    assert_eq!(negate(0x7ff8_0000_0000_0001), 0xfff8_0000_0000_0001);
}

#[test]
fn negation_twice_is_the_identity() {
    for x in samples() {
        assert_eq!(negate(negate(x.to_bits())), x.to_bits());
    }
}
