use path_planning::scalar::{Scalar, INFINITY_BITS, QUARTER_TURN_BITS, SIGN_BIT};

fn scalar(value: f64) -> Scalar {
    Scalar::from_bits(value.to_bits())
}

fn samples() -> Vec<f64> {
    vec![
        f64::NEG_INFINITY,
        f64::MIN,
        -1.0e300,
        -2.5,
        -1.0,
        -f64::MIN_POSITIVE,
        -5e-324,
        -0.0,
        0.0,
        5e-324,
        1e-310,
        f64::MIN_POSITIVE,
        0.5,
        1.0,
        1.0000000000000002,
        1.5,
        std::f64::consts::FRAC_PI_2,
        2.0,
        1024.0,
        1.0e300,
        f64::MAX,
        f64::INFINITY,
    ]
}

#[test]
fn bits_round_trip() {
    for v in samples() {
        assert_eq!(scalar(v).to_bits(), v.to_bits());
        assert_eq!(f64::from_bits(scalar(v).to_bits()).to_bits(), v.to_bits());
    }
}

#[test]
fn constants_match_the_encoding() {
    assert_eq!(SIGN_BIT, (-0.0f64).to_bits());
    assert_eq!(INFINITY_BITS, f64::INFINITY.to_bits());
    assert_eq!(QUARTER_TURN_BITS, std::f64::consts::FRAC_PI_2.to_bits());
    assert_eq!(Scalar::quarter_turn().to_bits(), std::f64::consts::FRAC_PI_2.to_bits());
}

#[test]
fn classification_agrees_with_the_values() {
    for v in samples() {
        let s = scalar(v);
        assert_eq!(s.is_nan(), v.is_nan());
        assert_eq!(s.is_finite(), v.is_finite());
        assert_eq!(s.is_positive(), v.is_finite() && v > 0.0);
    }
}

#[test]
fn nan_is_neither_finite_nor_positive() {
    let quiet = scalar(f64::NAN);
    assert!(quiet.is_nan());
    assert!(!quiet.is_finite());
    assert!(!quiet.is_positive());
    let negative_payload = Scalar::from_bits(0xFFF0_0000_0000_0001);
    assert!(negative_payload.is_nan());
    assert!(!negative_payload.is_finite());
    assert!(!negative_payload.is_positive());
}

#[test]
fn infinities_are_not_finite() {
    assert!(!scalar(f64::INFINITY).is_finite());
    assert!(!scalar(f64::NEG_INFINITY).is_finite());
    assert!(!scalar(f64::INFINITY).is_nan());
    assert!(!scalar(f64::INFINITY).is_positive());
}

#[test]
fn zeros_are_not_positive() {
    assert!(!scalar(0.0).is_positive());
    assert!(!scalar(-0.0).is_positive());
    assert!(scalar(0.0).is_finite());
    assert!(scalar(-0.0).is_finite());
}

#[test]
fn smallest_subnormal_is_positive() {
    assert!(Scalar::from_bits(1).is_positive());
    assert!(!Scalar::from_bits(SIGN_BIT + 1).is_positive());
}

#[test]
fn lt_agrees_with_the_values() {
    let values = samples();
    for a in values.iter() {
        for b in values.iter() {
            assert_eq!(scalar(*a).lt(&scalar(*b)), a < b, "{} < {}", a, b);
        }
    }
}

#[test]
fn lt_is_false_against_nan() {
    let nan = scalar(f64::NAN);
    for v in samples() {
        assert!(!nan.lt(&scalar(v)));
        assert!(!scalar(v).lt(&nan));
    }
    assert!(!nan.lt(&nan));
}

#[test]
fn the_two_zeros_are_not_ordered() {
    assert!(!scalar(-0.0).lt(&scalar(0.0)));
    assert!(!scalar(0.0).lt(&scalar(-0.0)));
    assert_ne!(scalar(-0.0), scalar(0.0));
}

#[test]
fn lt_exact_cases() {
    assert!(scalar(1.0).lt(&scalar(2.0)));
    assert!(!scalar(2.0).lt(&scalar(1.0)));
    assert!(!scalar(1.0).lt(&scalar(1.0)));
    assert!(scalar(-2.0).lt(&scalar(-1.0)));
    assert!(!scalar(-1.0).lt(&scalar(-2.0)));
    assert!(scalar(-1.0).lt(&scalar(1.0)));
    assert!(!scalar(1.0).lt(&scalar(-1.0)));
    assert!(scalar(-5e-324).lt(&scalar(0.0)));
    assert!(scalar(-0.0).lt(&scalar(5e-324)));
    assert!(scalar(f64::MAX).lt(&scalar(f64::INFINITY)));
    assert!(scalar(f64::NEG_INFINITY).lt(&scalar(f64::MIN)));
}

#[test]
fn eq_value_agrees_with_the_values() {
    let values = samples();
    for a in values.iter() {
        for b in values.iter() {
            assert_eq!(scalar(*a).eq_value(&scalar(*b)), a == b, "{} == {}", a, b);
        }
    }
}

#[test]
fn eq_value_of_zeros_and_nan() {
    assert!(scalar(0.0).eq_value(&scalar(-0.0)));
    assert!(scalar(-0.0).eq_value(&scalar(0.0)));
    assert!(!scalar(f64::NAN).eq_value(&scalar(f64::NAN)));
    assert!(!scalar(f64::NAN).eq_value(&scalar(1.0)));
    assert!(!scalar(1.0).eq_value(&scalar(-1.0)));
    assert!(scalar(f64::INFINITY).eq_value(&scalar(f64::INFINITY)));
}
