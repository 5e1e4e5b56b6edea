use bevy_atmosphere::scalar::{EXPONENT_MASK, MAGNITUDE_MASK, SIGN_MASK};
use bevy_atmosphere::Scalar;

fn scalar(x: f32) -> Scalar {
    Scalar::from_bits(x.to_bits())
}

fn number(s: Scalar) -> f32 {
    f32::from_bits(s.to_bits())
}

#[test]
fn masks_split_the_bits() {
    assert_eq!(SIGN_MASK | MAGNITUDE_MASK, u32::MAX);
    assert_eq!(SIGN_MASK & MAGNITUDE_MASK, 0);
    assert_eq!(EXPONENT_MASK, f32::INFINITY.to_bits());
    assert_eq!(SIGN_MASK, (-0.0f32).to_bits());
}

#[test]
fn bits_round_trip() {
    for bits in [0u32, 1, 0x3f80_0000, 0x7f80_0000, 0x7fc0_0000, 0x8000_0000, u32::MAX] {
        assert_eq!(Scalar::from_bits(bits).to_bits(), bits);
        assert_eq!(Scalar::from_bits(bits).bits, bits);
    }
}

#[test]
fn neg_is_the_unary_minus() {
    for x in [0.0f32, -0.0, 1.0, -1.0, 10.0, 25.0, -25.0, 0.758, 6371e3, f32::MAX, f32::MIN_POSITIVE,
        f32::INFINITY, f32::NEG_INFINITY]
    {
        assert_eq!(scalar(x).neg().to_bits(), (-x).to_bits());
    }
    assert_eq!(scalar(25.0).neg().to_bits(), 0xc1c8_0000);
    assert_eq!(scalar(-25.0).neg().to_bits(), 0x41c8_0000);
    assert_eq!(scalar(f32::NAN).neg().to_bits(), (-f32::NAN).to_bits());
}

#[test]
fn neg_twice_is_identity() {
    for bits in [0u32, 0x41c8_0000, 0xc1c8_0000, 0x7fc0_0001, 0xffff_ffff, 0x8000_0000] {
        let s = Scalar::from_bits(bits);
        assert_eq!(s.neg().neg(), s);
        assert_ne!(s.neg(), s);
    }
}

#[test]
fn abs_is_the_absolute_value() {
    for x in [0.0f32, -0.0, 1.0, -1.0, 25.0, -25.0, f32::INFINITY, f32::NEG_INFINITY, -6471e3] {
        assert_eq!(scalar(x).abs().to_bits(), x.abs().to_bits());
        assert_eq!(scalar(x).neg().abs(), scalar(x).abs());
    }
    assert_eq!(number(scalar(-25.0).abs()), 25.0);
    assert_eq!(scalar(25.0).abs(), scalar(25.0));
}

#[test]
fn sign_finite_zero_positive() {
    assert!(!scalar(25.0).is_sign_negative());
    assert!(scalar(-25.0).is_sign_negative());
    assert!(scalar(-0.0).is_sign_negative());
    assert!(!scalar(0.0).is_sign_negative());

    for x in [0.0f32, -0.0, 1.0, -1.0, f32::MAX, f32::MIN, f32::MIN_POSITIVE, 1e-45] {
        assert!(scalar(x).is_finite());
    }
    for x in [f32::INFINITY, f32::NEG_INFINITY, f32::NAN, -f32::NAN] {
        assert!(!scalar(x).is_finite());
    }

    assert!(scalar(0.0).is_zero());
    assert!(scalar(-0.0).is_zero());
    assert!(!scalar(1e-45).is_zero());
    assert!(!scalar(f32::NAN).is_zero());

    for x in [1e-45f32, f32::MIN_POSITIVE, 5.5e-6, 1.0, 6471e3, f32::MAX] {
        assert!(scalar(x).is_positive());
    }
    for x in [0.0f32, -0.0, -1.0, f32::INFINITY, f32::NEG_INFINITY, f32::NAN, -f32::NAN] {
        assert!(!scalar(x).is_positive());
    }
}

#[test]
fn positive_scalars_order_as_their_bits() {
    let xs = [1e-45f32, 5.5e-6, 13.0e-6, 0.758, 1.0, 22.0, 6371e3, 6471e3, f32::MAX];
    for w in xs.windows(2) {
        assert!(w[0] < w[1]);
        assert!(scalar(w[0]).to_bits() < scalar(w[1]).to_bits());
    }
}

#[test]
fn equality_is_of_bits() {
    assert_eq!(scalar(1.0), scalar(1.0));
    assert_ne!(scalar(0.0), scalar(-0.0));
    assert_eq!(scalar(f32::NAN), scalar(f32::NAN));
    let s = scalar(3.5);
    let t = s;
    assert_eq!(s, t.clone());
}

#[test]
fn nan_negative_and_numeric_equality() {
    let xs = [0.0f32, -0.0, 1.0, -1.0, 25.0, -25.0, 1e-45, -1e-45, f32::MAX, f32::MIN,
        f32::INFINITY, f32::NEG_INFINITY, f32::NAN, -f32::NAN];
    for x in xs {
        assert_eq!(scalar(x).is_nan(), x.is_nan());
        assert_eq!(scalar(x).is_negative(), x < 0.0);
        assert_eq!(scalar(x).is_finite(), x.is_finite());
        assert_eq!(scalar(x).is_positive(), x > 0.0 && x.is_finite());
        for y in xs {
            assert_eq!(scalar(x).is_same_number(scalar(y)), x == y);
        }
    }
    assert!(scalar(0.0).is_same_number(scalar(-0.0)));
    assert!(!scalar(f32::NAN).is_same_number(scalar(f32::NAN)));
    assert!(Scalar::from_bits(0x7f80_0001).is_nan());
    assert!(!Scalar::from_bits(0x7f80_0000).is_nan());
}
