use webvowl_wasm::scalar::{Scalar, INFINITY_BITS, SIGN_BIT};

fn scalar(value: f64) -> Scalar {
    Scalar::from_bits(value.to_bits())
}

fn samples() -> Vec<f64> {
    vec![
        0.0,
        -0.0,
        1.0,
        -1.0,
        0.001,
        0.0009999,
        0.0228,
        0.5,
        -0.5,
        30.0,
        -30.0,
        1e-310,
        -1e-310,
        f64::MIN_POSITIVE,
        f64::MAX,
        f64::MIN,
        f64::EPSILON,
        f64::INFINITY,
        f64::NEG_INFINITY,
        f64::NAN,
        -f64::NAN,
        f64::from_bits(0x7FF0_0000_0000_0001),
        f64::from_bits(0xFFFF_FFFF_FFFF_FFFF),
        1.0000000000000002,
        123456.789,
    ]
}

#[test]
fn lt_agrees_with_floating_point_comparison() {
    for a in samples() {
        for b in samples() {
            assert_eq!(scalar(a).lt(scalar(b)), a < b, "{:?} < {:?}", a, b);
        }
    }
}

#[test]
fn classification_agrees_with_floating_point() {
    for a in samples() {
        assert_eq!(scalar(a).is_nan(), a.is_nan(), "is_nan of {:?}", a);
        assert_eq!(scalar(a).is_zero(), a == 0.0, "is_zero of {:?}", a);
        assert_eq!(scalar(a).is_finite(), a.is_finite(), "is_finite of {:?}", a);
    }
}

#[test]
fn encodings_round_trip() {
    for a in samples() {
        assert_eq!(scalar(a).to_bits(), a.to_bits());
        assert_eq!(scalar(a).bits, a.to_bits());
    }
    assert_eq!(Scalar::zero().to_bits(), 0);
    assert_eq!(Scalar::zero(), scalar(0.0));
    assert_ne!(scalar(0.0), scalar(-0.0));
    assert_eq!(SIGN_BIT, (-0.0f64).to_bits());
    assert_eq!(INFINITY_BITS, f64::INFINITY.to_bits());
}
