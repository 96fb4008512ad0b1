use pathtracer::scalar::{Interval, Scalar, EPSILON, INFINITY, NEAREST, ONE, SIGN};
use pathtracer::vector::{Quaternion, Vector};

fn s(x: f64) -> Scalar {
    Scalar::from_bits(x.to_bits())
}

fn grid() -> Vec<f64> {
    vec![
        f64::NEG_INFINITY,
        -1e300,
        -180.0,
        -1.0,
        -0.001,
        -1e-8,
        -5e-324,
        -0.0,
        0.0,
        5e-324,
        1e-8,
        0.001,
        0.5,
        1.0,
        1.0000000000000002,
        180.0,
        1e300,
        f64::INFINITY,
        f64::NAN,
        -f64::NAN,
    ]
}

#[test]
fn constants_are_the_patterns_of_their_numbers() {
    assert_eq!(ONE, 1.0f64.to_bits());
    assert_eq!(INFINITY, f64::INFINITY.to_bits());
    assert_eq!(EPSILON, 1e-8f64.to_bits());
    assert_eq!(NEAREST, 0.001f64.to_bits());
    assert_eq!(SIGN, (-0.0f64).to_bits());
    assert_eq!(pathtracer::render::HALF_TURN, 180.0f64.to_bits());
    assert_eq!(Scalar::zero().to_bits(), 0.0f64.to_bits());
    assert_eq!(Scalar::one().to_bits(), 1.0f64.to_bits());
    assert_eq!(Scalar::infinity().to_bits(), f64::INFINITY.to_bits());
}

#[test]
fn lt_orders_as_the_numbers_do() {
    for a in grid() {
        for b in grid() {
            assert_eq!(s(a).lt(&s(b)), a < b, "{a:?} < {b:?}");
        }
    }
}

#[test]
fn le_orders_as_the_numbers_do() {
    for a in grid() {
        for b in grid() {
            assert_eq!(s(a).le(&s(b)), a <= b, "{a:?} <= {b:?}");
        }
    }
}

#[test]
fn both_zeros_are_equal_in_order() {
    assert!(s(-0.0).le(&s(0.0)));
    assert!(s(0.0).le(&s(-0.0)));
    assert!(!s(-0.0).lt(&s(0.0)));
    assert!(!s(0.0).lt(&s(-0.0)));
}

#[test]
fn no_number_compares_with_nothing() {
    let nan = s(f64::NAN);
    assert!(nan.nan());
    assert!(s(-f64::NAN).nan());
    assert!(!nan.lt(&nan));
    assert!(!nan.le(&nan));
    assert!(!nan.lt(&s(f64::INFINITY)));
    assert!(!s(f64::NEG_INFINITY).le(&nan));
    assert!(!s(f64::INFINITY).nan());
    assert!(!s(f64::NEG_INFINITY).nan());
    assert!(!s(0.0).nan());
}

#[test]
fn finite_is_neither_infinite_nor_nothing() {
    for a in grid() {
        assert_eq!(s(a).finite(), a.is_finite());
    }
    assert!(Vector::new(s(1.0), s(-2.0), s(0.0)).finite());
    assert!(!Vector::new(s(1.0), s(f64::INFINITY), s(0.0)).finite());
    assert!(!Vector::new(s(1.0), s(0.0), s(f64::NAN)).finite());
}

#[test]
fn neg_flips_the_sign_only() {
    for a in grid() {
        assert_eq!(s(a).neg().to_bits(), (-a).to_bits());
        assert_eq!(s(a).neg().neg(), s(a));
    }
    assert_eq!(s(1.5).neg(), s(-1.5));
    assert_ne!(s(1.5).neg(), s(1.5));
}

#[test]
fn abs_clears_the_sign_only() {
    for a in grid() {
        assert_eq!(s(a).abs().to_bits(), a.abs().to_bits());
    }
    assert_eq!(s(-2.0).abs(), s(2.0));
}

#[test]
fn interval_is_half_open() {
    let range = Interval::new(s(0.001), s(2.0));
    assert!(range.contains(&s(0.001)));
    assert!(range.contains(&s(1.0)));
    assert!(!range.contains(&s(2.0)));
    assert!(!range.contains(&s(0.0009)));
    assert!(!range.contains(&s(f64::NAN)));
    for t in grid() {
        assert_eq!(range.contains(&s(t)), (0.001..2.0).contains(&t));
    }
}

#[test]
fn unit_interval_holds_zero_but_not_one() {
    let unit = Interval::unit();
    assert_eq!(unit.min, s(0.0));
    assert_eq!(unit.max, s(1.0));
    assert!(unit.contains(&s(0.0)));
    assert!(unit.contains(&s(-0.0)));
    assert!(unit.contains(&s(0.9999999999999999)));
    assert!(!unit.contains(&s(1.0)));
    assert!(!unit.contains(&s(-5e-324)));
}

#[test]
fn interval_with_no_number_as_bound_holds_nothing() {
    let range = Interval::new(s(f64::NAN), s(2.0));
    for t in grid() {
        assert!(!range.contains(&s(t)));
    }
    let range = Interval::new(s(0.0), s(f64::NAN));
    for t in grid() {
        assert!(!range.contains(&s(t)));
    }
}

#[test]
fn vector_neg_flips_every_component() {
    let v = Vector::new(s(1.0), s(-2.0), s(0.0));
    let n = v.neg();
    assert_eq!(n, Vector::new(s(-1.0), s(2.0), s(-0.0)));
    assert_eq!(n.neg(), v);
}

#[test]
fn vector_near_zero_needs_every_component_small() {
    assert!(Vector::new(s(0.0), s(-0.0), s(9.9e-9)).near_zero());
    assert!(Vector::new(s(-9.9e-9), s(9.9e-9), s(0.0)).near_zero());
    assert!(!Vector::new(s(1e-8), s(0.0), s(0.0)).near_zero());
    assert!(!Vector::new(s(0.0), s(-1e-8), s(0.0)).near_zero());
    assert!(!Vector::new(s(0.0), s(0.0), s(1.0)).near_zero());
    assert!(!Vector::new(s(f64::NAN), s(0.0), s(0.0)).near_zero());
    assert!(Vector::zeros().near_zero());
    assert!(!Vector::ones().near_zero());
}

#[test]
fn identity_quaternion_has_real_part_one() {
    let q = Quaternion::identity();
    assert_eq!(q, Quaternion { i: s(0.0), j: s(0.0), k: s(0.0), w: s(1.0) });
}
