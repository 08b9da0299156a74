use kepler_orbit::scalar::{Scalar, IMPLICIT_BIT, INFINITY_BITS, ONE_BITS, SIGN_MASK};

fn s(x: f64) -> Scalar {
    Scalar::from_bits(x.to_bits())
}

fn samples() -> Vec<f64> {
    vec![
        0.0,
        -0.0,
        1.0,
        -1.0,
        0.1,
        -0.1,
        5e-324,
        -5e-324,
        2.225073858507201e-308,
        f64::MIN_POSITIVE,
        -f64::MIN_POSITIVE,
        f64::MAX,
        f64::MIN,
        f64::INFINITY,
        f64::NEG_INFINITY,
        f64::NAN,
        -f64::NAN,
        std::f64::consts::PI,
        2.0 * std::f64::consts::PI,
        1e-10,
        -1e-10,
        0.999999,
        1.0000000000000002,
        0.9999999999999999,
        6300000.0,
        -7000000.0,
        5.972e24,
        6.67408e-11,
    ]
}

#[test]
fn bits_go_in_and_come_out_unchanged() {
    for x in samples() {
        assert_eq!(s(x).to_bits(), x.to_bits());
    }
    assert_eq!(Scalar::from_bits(0x1234_5678_9abc_def0).to_bits(), 0x1234_5678_9abc_def0);
}

#[test]
fn named_patterns_are_those_of_the_numbers() {
    assert_eq!(ONE_BITS, 1.0f64.to_bits());
    assert_eq!(INFINITY_BITS, f64::INFINITY.to_bits());
    assert_eq!(SIGN_MASK, (-0.0f64).to_bits());
    assert_eq!(IMPLICIT_BIT, 1u64 << 52);
    assert_eq!(Scalar::zero().to_bits(), 0.0f64.to_bits());
    assert_eq!(Scalar::one().to_bits(), 1.0f64.to_bits());
}

#[test]
fn classification_agrees_with_the_hardware() {
    for x in samples() {
        let v = s(x);
        assert_eq!(v.is_nan(), x.is_nan(), "is_nan of {x:e}");
        assert_eq!(v.is_finite(), x.is_finite(), "is_finite of {x:e}");
        assert_eq!(v.is_infinite(), x.is_infinite(), "is_infinite of {x:e}");
        assert_eq!(v.is_sign_negative(), x.is_sign_negative(), "sign of {x:e}");
        assert_eq!(v.is_zero(), x == 0.0, "is_zero of {x:e}");
        assert_eq!(v.is_positive(), x.is_finite() && x > 0.0, "is_positive of {x:e}");
        assert_eq!(v.is_negative(), x.is_finite() && x < 0.0, "is_negative of {x:e}");
    }
}

#[test]
fn order_agrees_with_the_hardware() {
    for x in samples() {
        for y in samples() {
            assert_eq!(s(x).lt(s(y)), x < y, "{x:e} < {y:e}");
            assert_eq!(s(x).le(s(y)), x <= y, "{x:e} <= {y:e}");
        }
    }
}

#[test]
fn equality_is_that_of_the_numbers() {
    for x in samples() {
        for y in samples() {
            assert_eq!(s(x).same_value(s(y)), x == y, "{x:e} == {y:e}");
            assert_eq!(s(x) == s(y), x == y, "{x:e} == {y:e} by operator");
        }
    }
    assert!(s(0.0) == s(-0.0));
    assert!(s(f64::NAN) != s(f64::NAN));
}

#[test]
fn abs_clears_the_sign_only() {
    for x in samples() {
        assert_eq!(s(x).abs().to_bits(), x.abs().to_bits(), "abs of {x:e}");
    }
    assert_eq!(s(-2.5).abs().to_bits(), 2.5f64.to_bits());
}

#[test]
fn order_holds_across_neighbouring_patterns() {
    let around: [u64; 6] = [
        0x0000_0000_0000_0001,
        0x000f_ffff_ffff_ffff,
        0x0010_0000_0000_0000,
        0x3fef_ffff_ffff_ffff,
        0x3ff0_0000_0000_0000,
        0x7fef_ffff_ffff_ffff,
    ];
    for p in around {
        let lo = Scalar::from_bits(p);
        let hi = Scalar::from_bits(p + 1);
        assert!(lo.lt(hi));
        assert!(!hi.lt(lo));
        assert!(!lo.same_value(hi));
        let neg_lo = Scalar::from_bits(p | SIGN_MASK);
        let neg_hi = Scalar::from_bits((p + 1) | SIGN_MASK);
        assert!(neg_hi.lt(neg_lo));
        assert!(neg_lo.lt(lo));
    }
}

#[test]
fn order_agrees_with_the_hardware_on_a_sweep_of_patterns() {
    let mut state: u64 = 0x9e37_79b9_7f4a_7c15;
    let mut next = move || {
        state = state.wrapping_mul(6364136223846793005).wrapping_add(1442695040888963407);
        state ^ (state >> 29)
    };
    for _ in 0..20_000 {
        let (p, q) = (next(), next());
        let (x, y) = (f64::from_bits(p), f64::from_bits(q));
        let (a, b) = (Scalar::from_bits(p), Scalar::from_bits(q));
        assert_eq!(a.lt(b), x < y, "{p:#x} < {q:#x}");
        assert_eq!(a.le(b), x <= y, "{p:#x} <= {q:#x}");
        assert_eq!(a.same_value(b), x == y, "{p:#x} == {q:#x}");
        assert_eq!(a.is_nan(), x.is_nan());
        assert_eq!(a.is_finite(), x.is_finite());
        assert_eq!(a.is_positive(), x.is_finite() && x > 0.0);
        assert_eq!(a.is_negative(), x.is_finite() && x < 0.0);
        let near = Scalar::from_bits(p ^ (q & 0xff));
        assert_eq!(a.lt(near), x < f64::from_bits(p ^ (q & 0xff)));
    }
}
