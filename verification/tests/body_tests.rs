use kepler_orbit::body::{GravitatingBody, InvalidBodyError, GRAVITATIONAL_CONSTANT_BITS};
use kepler_orbit::scalar::Scalar;

fn s(x: f64) -> Scalar {
    Scalar::from_bits(x.to_bits())
}

fn f(x: Scalar) -> f64 {
    f64::from_bits(x.to_bits())
}

const G: f64 = 6.67408e-11;

#[test]
fn earth_like_body_is_accepted_and_keeps_its_values() {
    let body = GravitatingBody::new(s(5.972e24), s(6.371e6), s(G)).unwrap();
    assert_eq!(f(body.mass()), 5.972e24);
    assert_eq!(f(body.radius()), 6.371e6);
    assert_eq!(f(body.gravitational_constant()), G);
}

#[test]
fn gravitational_parameter_follows_the_mass() {
    let light = GravitatingBody::new(s(1.0e20), s(1.0), s(G)).unwrap();
    let heavy = GravitatingBody::new(s(2.0e20), s(1.0), s(G)).unwrap();
    let k_light = f(light.mass()) * f(light.gravitational_constant());
    let k_heavy = f(heavy.mass()) * f(heavy.gravitational_constant());
    assert_eq!(k_light, 1.0e20 * G);
    assert_eq!(k_heavy, 2.0 * k_light);
}

#[test]
fn mass_must_be_a_finite_number_above_zero() {
    for bad in [0.0, -0.0, -1.0, f64::NAN, f64::INFINITY, f64::NEG_INFINITY] {
        assert_eq!(
            GravitatingBody::new(s(bad), s(1.0), s(G)),
            Err(InvalidBodyError::Mass),
            "mass {bad:e}"
        );
    }
}

#[test]
fn radius_must_be_a_finite_number_above_zero() {
    for bad in [0.0, -6.0e6, f64::NAN, f64::INFINITY] {
        assert_eq!(
            GravitatingBody::new(s(1.0), s(bad), s(G)),
            Err(InvalidBodyError::Radius),
            "radius {bad:e}"
        );
    }
}

#[test]
fn gravitational_constant_must_be_a_finite_number_above_zero() {
    for bad in [0.0, -G, f64::NAN, f64::INFINITY] {
        assert_eq!(
            GravitatingBody::new(s(1.0), s(1.0), s(bad)),
            Err(InvalidBodyError::GravitationalConstant),
            "constant {bad:e}"
        );
    }
}

#[test]
fn the_first_bad_quantity_is_named() {
    assert_eq!(GravitatingBody::new(s(-1.0), s(-1.0), s(-1.0)), Err(InvalidBodyError::Mass));
    assert_eq!(GravitatingBody::new(s(1.0), s(-1.0), s(-1.0)), Err(InvalidBodyError::Radius));
}

#[test]
fn smallest_positive_quantities_are_accepted() {
    let tiny = 5e-324;
    let body = GravitatingBody::new(s(tiny), s(tiny), s(tiny)).unwrap();
    assert_eq!(f(body.mass()), tiny);
    let huge = GravitatingBody::new(s(f64::MAX), s(f64::MAX), s(f64::MAX)).unwrap();
    assert_eq!(f(huge.radius()), f64::MAX);
}

#[test]
fn default_body_is_the_unit_body() {
    let body = GravitatingBody::default();
    assert_eq!(f(body.mass()), 1.0);
    assert_eq!(f(body.radius()), 1.0);
    assert_eq!(f(body.gravitational_constant()), G);
    assert_eq!(GRAVITATIONAL_CONSTANT_BITS, G.to_bits());
    assert_eq!(Ok(body), GravitatingBody::new(s(1.0), s(1.0), s(G)));
}
