use shapes::scalar::{
    Scalar, HALF_BITS, HALF_TURN_BITS, INFINITY_BITS, MAGNITUDE_MASK, ONE_BITS, ZERO_BITS,
};

fn samples() -> Vec<f32> {
    vec![
        0.0,
        -0.0,
        1.0,
        -1.0,
        0.5,
        -0.5,
        1.3,
        45.0,
        180.0,
        -180.0,
        1.0e-40,
        -1.0e-40,
        f32::MIN_POSITIVE,
        f32::MAX,
        f32::MIN,
        f32::INFINITY,
        f32::NEG_INFINITY,
        f32::NAN,
        -f32::NAN,
        f32::EPSILON,
    ]
}

#[test]
fn constants_are_the_bits_of_their_numbers() {
    assert_eq!(ZERO_BITS, 0.0f32.to_bits());
    assert_eq!(HALF_BITS, 0.5f32.to_bits());
    assert_eq!(ONE_BITS, 1.0f32.to_bits());
    assert_eq!(HALF_TURN_BITS, 180.0f32.to_bits());
    assert_eq!(INFINITY_BITS, f32::INFINITY.to_bits());
    assert_eq!(MAGNITUDE_MASK, 0x7fff_ffff);
}

#[test]
fn bits_go_in_and_come_out_unchanged() {
    for x in samples() {
        let s = Scalar::from_bits(x.to_bits());
        assert_eq!(s.to_bits(), x.to_bits());
        assert_eq!(s.bits, x.to_bits());
    }
}

#[test]
fn lt_agrees_with_the_order_of_floats() {
    for a in samples() {
        for b in samples() {
            let sa = Scalar::from_bits(a.to_bits());
            let sb = Scalar::from_bits(b.to_bits());
            assert_eq!(sa.lt(sb), a < b, "{} < {}", a, b);
        }
    }
}

#[test]
fn lt_on_named_pairs() {
    let s = |x: f32| Scalar::from_bits(x.to_bits());
    assert!(s(0.1).lt(s(100.0)));
    assert!(!s(100.0).lt(s(0.1)));
    assert!(s(-2.0).lt(s(-1.0)));
    assert!(s(-1.0).lt(s(0.0)));
    assert!(!s(-0.0).lt(s(0.0)));
    assert!(!s(0.0).lt(s(-0.0)));
    assert!(!s(1.0).lt(s(1.0)));
    assert!(!s(f32::NAN).lt(s(1.0)));
    assert!(!s(1.0).lt(s(f32::NAN)));
    assert!(s(f32::MAX).lt(s(f32::INFINITY)));
}

#[test]
fn classification_agrees_with_floats() {
    for x in samples() {
        let s = Scalar::from_bits(x.to_bits());
        assert_eq!(s.is_nan(), x.is_nan(), "{}", x);
        assert_eq!(s.is_positive(), x > 0.0, "{}", x);
    }
}

#[test]
fn neither_zero_is_positive() {
    let plus = Scalar::from_bits(0x0000_0000);
    let minus = Scalar::from_bits(0x8000_0000);
    assert!(!plus.is_positive() && !minus.is_positive());
    assert!(!plus.lt(minus) && !minus.lt(plus));
}
