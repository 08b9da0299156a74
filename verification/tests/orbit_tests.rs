use kepler_orbit::orbit::{InvalidElementsError, Orbit, OrbitClass, OrbitElements};
use kepler_orbit::scalar::Scalar;

fn s(x: f64) -> Scalar {
    Scalar::from_bits(x.to_bits())
}

fn f(x: Scalar) -> f64 {
    f64::from_bits(x.to_bits())
}

fn elements(distance: f64, eccentricity: f64) -> OrbitElements {
    OrbitElements {
        semimajor_axis_or_periapsis: s(distance),
        eccentricity: s(eccentricity),
        inclination: s(0.3),
        ascending_node: s(1.1),
        angle_of_periapsis: s(-0.7),
    }
}

#[test]
fn each_class_accepts_its_own_elements() {
    assert_eq!(Orbit::new_circular(elements(7.0e6, 0.0)).unwrap().class(), OrbitClass::Circular);
    assert_eq!(
        Orbit::new_elliptical(elements(7.0e6, 0.1)).unwrap().class(),
        OrbitClass::Elliptical
    );
    assert_eq!(Orbit::new_parabolic(elements(7.0e6, 1.0)).unwrap().class(), OrbitClass::Parabolic);
    assert_eq!(
        Orbit::new_hyperbolic(elements(-7.0e6, 1.5)).unwrap().class(),
        OrbitClass::Hyperbolic
    );
}

#[test]
fn general_constructor_agrees_with_the_named_ones() {
    let e = elements(7.0e6, 0.1);
    assert_eq!(Orbit::new(OrbitClass::Elliptical, e), Orbit::new_elliptical(e));
    assert_eq!(Orbit::new(OrbitClass::Circular, e), Orbit::new_circular(e));
    assert_eq!(Orbit::new(OrbitClass::Parabolic, e), Orbit::new_parabolic(e));
    assert_eq!(Orbit::new(OrbitClass::Hyperbolic, e), Orbit::new_hyperbolic(e));
    assert!(Orbit::new(OrbitClass::Elliptical, e).is_ok());
    assert_eq!(Orbit::new(OrbitClass::Circular, e), Err(InvalidElementsError::Eccentricity));
}

#[test]
fn elements_come_back_as_they_went_in() {
    let e = elements(7.0e6, 0.25);
    let orbit = Orbit::new_elliptical(e).unwrap();
    assert_eq!(orbit.elements(), e);
    assert_eq!(f(orbit.inclination()), 0.3);
    assert_eq!(f(orbit.angle_of_ascending_node()), 1.1);
    assert_eq!(f(orbit.angle_of_periapsis()), -0.7);
    assert_eq!(f(orbit.eccentricity()), 0.25);
    assert_eq!(orbit.semimajor_axis().map(f), Some(7.0e6));
}

#[test]
fn eccentricity_of_another_class_is_refused() {
    for bad in [1.0, 1.5, -0.1, f64::NAN, f64::INFINITY] {
        assert_eq!(
            Orbit::new_elliptical(elements(7.0e6, bad)),
            Err(InvalidElementsError::Eccentricity),
            "ellipse with e = {bad:e}"
        );
    }
    for bad in [0.1, 1.0, -1.0, f64::NAN, 5e-324] {
        assert_eq!(
            Orbit::new_circular(elements(7.0e6, bad)),
            Err(InvalidElementsError::Eccentricity),
            "circle with e = {bad:e}"
        );
    }
    for bad in [0.0, 0.9999999999999999, 1.0000000000000002, f64::NAN] {
        assert_eq!(
            Orbit::new_parabolic(elements(7.0e6, bad)),
            Err(InvalidElementsError::Eccentricity),
            "parabola with e = {bad:e}"
        );
    }
    for bad in [1.0, 0.5, 0.0, -2.0, f64::NAN, f64::INFINITY] {
        assert_eq!(
            Orbit::new_hyperbolic(elements(-7.0e6, bad)),
            Err(InvalidElementsError::Eccentricity),
            "hyperbola with e = {bad:e}"
        );
    }
}

#[test]
fn eccentricity_at_the_edges_of_a_class_is_accepted() {
    assert!(Orbit::new_elliptical(elements(7.0e6, 0.0)).is_ok());
    assert!(Orbit::new_elliptical(elements(7.0e6, -0.0)).is_ok());
    assert!(Orbit::new_elliptical(elements(7.0e6, 0.9999999999999999)).is_ok());
    assert!(Orbit::new_circular(elements(7.0e6, -0.0)).is_ok());
    assert!(Orbit::new_hyperbolic(elements(-7.0e6, 1.0000000000000002)).is_ok());
    assert!(Orbit::new_hyperbolic(elements(-7.0e6, f64::MAX)).is_ok());
}

#[test]
fn distance_must_have_the_sign_of_the_class() {
    for bad in [0.0, -7.0e6, f64::NAN, f64::INFINITY] {
        assert_eq!(
            Orbit::new_circular(elements(bad, 0.0)),
            Err(InvalidElementsError::Distance)
        );
        assert_eq!(
            Orbit::new_elliptical(elements(bad, 0.1)),
            Err(InvalidElementsError::Distance)
        );
        assert_eq!(
            Orbit::new_parabolic(elements(bad, 1.0)),
            Err(InvalidElementsError::Distance)
        );
    }
    for bad in [0.0, 7.0e6, f64::NAN, f64::NEG_INFINITY] {
        assert_eq!(
            Orbit::new_hyperbolic(elements(bad, 1.5)),
            Err(InvalidElementsError::Distance)
        );
    }
}

#[test]
fn angles_must_be_finite() {
    let good = elements(7.0e6, 0.1);
    for bad in [f64::NAN, f64::INFINITY, f64::NEG_INFINITY] {
        let tilted = OrbitElements { inclination: s(bad), ..good };
        assert_eq!(Orbit::new_elliptical(tilted), Err(InvalidElementsError::Angle));
        let turned = OrbitElements { ascending_node: s(bad), ..good };
        assert_eq!(Orbit::new_elliptical(turned), Err(InvalidElementsError::Angle));
        let swung = OrbitElements { angle_of_periapsis: s(bad), ..good };
        assert_eq!(Orbit::new_elliptical(swung), Err(InvalidElementsError::Angle));
    }
    let wide = OrbitElements { inclination: s(-400.0), ..good };
    assert!(Orbit::new_elliptical(wide).is_ok());
}

#[test]
fn the_first_failed_check_is_named() {
    let mut all_bad = elements(-1.0, 3.0);
    all_bad.inclination = s(f64::NAN);
    assert_eq!(Orbit::new_elliptical(all_bad), Err(InvalidElementsError::Eccentricity));
    all_bad.eccentricity = s(0.5);
    assert_eq!(Orbit::new_elliptical(all_bad), Err(InvalidElementsError::Distance));
    all_bad.semimajor_axis_or_periapsis = s(1.0);
    assert_eq!(Orbit::new_elliptical(all_bad), Err(InvalidElementsError::Angle));
}

#[test]
fn eccentricity_is_implied_on_circle_and_parabola() {
    let circle = Orbit::new_circular(elements(7.0e6, -0.0)).unwrap();
    assert_eq!(circle.eccentricity().to_bits(), 0.0f64.to_bits());
    let parabola = Orbit::new_parabolic(elements(7.0e6, 1.0)).unwrap();
    assert_eq!(f(parabola.eccentricity()), 1.0);
    let hyperbola = Orbit::new_hyperbolic(elements(-7.0e6, 2.5)).unwrap();
    assert_eq!(f(hyperbola.eccentricity()), 2.5);
}

#[test]
fn parabola_has_no_semimajor_axis() {
    let parabola = Orbit::new_parabolic(elements(7.0e6, 1.0)).unwrap();
    assert_eq!(parabola.semimajor_axis(), None);
    assert_eq!(f(parabola.elements().semimajor_axis_or_periapsis), 7.0e6);
    let circle = Orbit::new_circular(elements(7.0e6, 0.0)).unwrap();
    assert_eq!(circle.semimajor_axis().map(f), Some(7.0e6));
    let hyperbola = Orbit::new_hyperbolic(elements(-7.0e6, 1.5)).unwrap();
    assert_eq!(hyperbola.semimajor_axis().map(f), Some(-7.0e6));
}

#[test]
fn circle_and_ellipse_are_bound_parabola_and_hyperbola_are_not() {
    assert!(Orbit::new_circular(elements(7.0e6, 0.0)).unwrap().is_bound());
    assert!(Orbit::new_elliptical(elements(7.0e6, 0.1)).unwrap().is_bound());
    assert!(!Orbit::new_parabolic(elements(7.0e6, 1.0)).unwrap().is_bound());
    assert!(!Orbit::new_hyperbolic(elements(-7.0e6, 1.5)).unwrap().is_bound());
    assert!(OrbitClass::Circular.is_bound());
    assert!(OrbitClass::Elliptical.is_bound());
    assert!(!OrbitClass::Parabolic.is_bound());
    assert!(!OrbitClass::Hyperbolic.is_bound());
}

#[test]
fn bound_orbits_are_those_of_eccentricity_below_one() {
    let orbits = [
        Orbit::new_circular(elements(7.0e6, 0.0)).unwrap(),
        Orbit::new_elliptical(elements(7.0e6, 0.0)).unwrap(),
        Orbit::new_elliptical(elements(7.0e6, 0.999999)).unwrap(),
        Orbit::new_parabolic(elements(7.0e6, 1.0)).unwrap(),
        Orbit::new_hyperbolic(elements(-7.0e6, 1.000001)).unwrap(),
    ];
    for orbit in orbits {
        assert_eq!(orbit.eccentricity().lt(Scalar::one()), orbit.is_bound());
        assert_eq!(f(orbit.eccentricity()) < 1.0, orbit.is_bound());
    }
}

#[test]
fn ellipse_of_eccentricity_zero_agrees_with_the_circle() {
    let circle = Orbit::new_circular(elements(7.0e6, 0.0)).unwrap();
    let ellipse = Orbit::new_elliptical(elements(7.0e6, 0.0)).unwrap();
    assert!(circle.eccentricity().same_value(ellipse.eccentricity()));
    assert_eq!(circle.semimajor_axis(), ellipse.semimajor_axis());
    assert_eq!(circle.is_bound(), ellipse.is_bound());
    assert_eq!(circle.inclination(), ellipse.inclination());
}
