//! Keplerian orbits: the four classes of conic, the classical elements, and
//! the construction that holds the elements to their class.

use crate::scalar::{lemma_magnitude_order, lemma_unit_values, Scalar};
use vstd::arithmetic::power2::lemma_pow2_pos;
use vstd::prelude::*;

verus! {

/// The class of conic that an orbit follows. It is fixed when the orbit is
/// made and never derived again from the eccentricity.
#[derive(Clone, Copy, Debug, PartialEq, Eq, Structural)]
pub enum OrbitClass {
    Circular,
    Elliptical,
    Parabolic,
    Hyperbolic,
}

impl OrbitClass {
    /// Closed orbits, on which the body returns: the circle and the ellipse.
    pub open spec fn spec_is_bound(self) -> bool {
        self is Circular || self is Elliptical
    }

    /// Whether the class is one of the closed orbits.
    #[verifier::when_used_as_spec(spec_is_bound)]
    pub fn is_bound(self) -> (r: bool)
        ensures
            r == self.spec_is_bound(),
    {
        match self {
            OrbitClass::Circular => true,
            OrbitClass::Elliptical => true,
            OrbitClass::Parabolic => false,
            OrbitClass::Hyperbolic => false,
        }
    }
}

/// The five classical elements, as handed in by a caller: nothing is checked
/// until an `Orbit` is made of them.
#[derive(Clone, Copy, Debug, PartialEq)]
pub struct OrbitElements {
    /// Metres. The periapsis distance for a parabolic orbit, which has no
    /// semimajor axis; the semimajor axis for every other class, negative
    /// for a hyperbolic orbit.
    pub semimajor_axis_or_periapsis: Scalar,
    pub eccentricity: Scalar,
    /// Radians.
    pub inclination: Scalar,
    /// Longitude of the ascending node, radians.
    pub ascending_node: Scalar,
    /// Argument of periapsis, radians.
    pub angle_of_periapsis: Scalar,
}

/// Why an orbit could not be made of the elements: the first of the three
/// checks, in this order, that they fail.
#[derive(Clone, Copy, Debug, PartialEq, Eq, Structural)]
pub enum InvalidElementsError {
    /// The eccentricity is not one that the class admits.
    Eccentricity,
    /// The semimajor axis or periapsis distance is not finite, is zero, or
    /// has the wrong sign for the class.
    Distance,
    /// One of the three angles is not a finite number.
    Angle,
}

/// The eccentricities of each class: zero for a circle, `0 <= e < 1` for an
/// ellipse, one for a parabola, a finite `e > 1` for a hyperbola.
pub open spec fn eccentricity_fits(class: OrbitClass, e: Scalar) -> bool {
    match class {
        OrbitClass::Circular => e.is_zero(),
        OrbitClass::Elliptical => Scalar::zero().le(e) && e.lt(Scalar::one()),
        OrbitClass::Parabolic => e.same_value(Scalar::one()),
        OrbitClass::Hyperbolic => Scalar::one().lt(e) && e.is_finite(),
    }
}

/// The semimajor axis of a hyperbola is negative; every other distance is
/// positive. Both are finite.
pub open spec fn distance_fits(class: OrbitClass, d: Scalar) -> bool {
    match class {
        OrbitClass::Hyperbolic => d.is_negative(),
        _ => d.is_positive(),
    }
}

/// The three angles are finite numbers.
pub open spec fn angles_fit(elements: OrbitElements) -> bool {
    &&& elements.inclination.is_finite()
    &&& elements.ascending_node.is_finite()
    &&& elements.angle_of_periapsis.is_finite()
}

/// What an orbit holds: its class and the elements it was made of.
pub struct OrbitView {
    pub class: OrbitClass,
    pub elements: OrbitElements,
}

impl OrbitView {
    /// The elements are those of the class.
    pub open spec fn wf(self) -> bool {
        &&& eccentricity_fits(self.class, self.elements.eccentricity)
        &&& distance_fits(self.class, self.elements.semimajor_axis_or_periapsis)
        &&& angles_fit(self.elements)
    }

    /// Zero on a circle and one on a parabola, whatever pattern was handed
    /// in; the stored eccentricity on an ellipse and a hyperbola.
    pub open spec fn eccentricity(self) -> Scalar {
        match self.class {
            OrbitClass::Circular => Scalar::zero(),
            OrbitClass::Parabolic => Scalar::one(),
            _ => self.elements.eccentricity,
        }
    }

    /// A parabola has none.
    pub open spec fn semimajor_axis(self) -> Option<Scalar> {
        match self.class {
            OrbitClass::Parabolic => None,
            _ => Some(self.elements.semimajor_axis_or_periapsis),
        }
    }
}

/// An orbit of one of the four classes. It can only be made through the
/// constructors, which refuse elements that do not belong to the class, and it
/// never changes afterwards.
#[derive(Clone, Copy, Debug, PartialEq)]
pub struct Orbit {
    class: OrbitClass,
    elements: OrbitElements,
}

impl View for Orbit {
    type V = OrbitView;

    closed spec fn view(&self) -> OrbitView {
        OrbitView { class: self.class, elements: self.elements }
    }
}

fn check_eccentricity(class: OrbitClass, e: Scalar) -> (r: bool)
    ensures
        r == eccentricity_fits(class, e),
{
    match class {
        OrbitClass::Circular => e.is_zero(),
        OrbitClass::Elliptical => Scalar::zero().le(e) && e.lt(Scalar::one()),
        OrbitClass::Parabolic => e.same_value(Scalar::one()),
        OrbitClass::Hyperbolic => Scalar::one().lt(e) && e.is_finite(),
    }
}

fn check_distance(class: OrbitClass, d: Scalar) -> (r: bool)
    ensures
        r == distance_fits(class, d),
{
    match class {
        OrbitClass::Hyperbolic => d.is_negative(),
        _ => d.is_positive(),
    }
}

impl Orbit {
    #[verifier::type_invariant]
    spec fn inv(self) -> bool {
        self@.wf()
    }

    /// An orbit of the given class, if the elements are those of the class.
    /// Nothing is coerced: elements of another class are refused.
    pub fn new(class: OrbitClass, elements: OrbitElements) -> (r: Result<Orbit, InvalidElementsError>)
        ensures
            match r {
                Ok(orbit) => orbit@.wf() && orbit@.class == class && orbit@.elements == elements,
                Err(InvalidElementsError::Eccentricity) => !eccentricity_fits(
                    class,
                    elements.eccentricity,
                ),
                Err(InvalidElementsError::Distance) => {
                    &&& eccentricity_fits(class, elements.eccentricity)
                    &&& !distance_fits(class, elements.semimajor_axis_or_periapsis)
                },
                Err(InvalidElementsError::Angle) => {
                    &&& eccentricity_fits(class, elements.eccentricity)
                    &&& distance_fits(class, elements.semimajor_axis_or_periapsis)
                    &&& !angles_fit(elements)
                },
            },
    {
        if !check_eccentricity(class, elements.eccentricity) {
            Err(InvalidElementsError::Eccentricity)
        } else if !check_distance(class, elements.semimajor_axis_or_periapsis) {
            Err(InvalidElementsError::Distance)
        } else if !(elements.inclination.is_finite() && elements.ascending_node.is_finite()
            && elements.angle_of_periapsis.is_finite()) {
            Err(InvalidElementsError::Angle)
        } else {
            Ok(Orbit { class, elements })
        }
    }

    /// A circular orbit: the eccentricity handed in must be zero and the
    /// semimajor axis, its radius, positive.
    pub fn new_circular(elements: OrbitElements) -> (r: Result<Orbit, InvalidElementsError>)
        ensures
            match r {
                Ok(orbit) => {
                    &&& orbit@.wf()
                    &&& orbit@.class == OrbitClass::Circular
                    &&& orbit@.elements == elements
                },
                Err(InvalidElementsError::Eccentricity) => !elements.eccentricity.is_zero(),
                Err(InvalidElementsError::Distance) => {
                    &&& elements.eccentricity.is_zero()
                    &&& !elements.semimajor_axis_or_periapsis.is_positive()
                },
                Err(InvalidElementsError::Angle) => {
                    &&& elements.eccentricity.is_zero()
                    &&& elements.semimajor_axis_or_periapsis.is_positive()
                    &&& !angles_fit(elements)
                },
            },
    {
        Orbit::new(OrbitClass::Circular, elements)
    }

    /// An elliptical orbit: `0 <= e < 1` and a positive semimajor axis.
    pub fn new_elliptical(elements: OrbitElements) -> (r: Result<Orbit, InvalidElementsError>)
        ensures
            match r {
                Ok(orbit) => {
                    &&& orbit@.wf()
                    &&& orbit@.class == OrbitClass::Elliptical
                    &&& orbit@.elements == elements
                },
                Err(InvalidElementsError::Eccentricity) => !(Scalar::zero().le(
                    elements.eccentricity,
                ) && elements.eccentricity.lt(Scalar::one())),
                Err(InvalidElementsError::Distance) => {
                    &&& Scalar::zero().le(elements.eccentricity)
                    &&& elements.eccentricity.lt(Scalar::one())
                    &&& !elements.semimajor_axis_or_periapsis.is_positive()
                },
                Err(InvalidElementsError::Angle) => {
                    &&& Scalar::zero().le(elements.eccentricity)
                    &&& elements.eccentricity.lt(Scalar::one())
                    &&& elements.semimajor_axis_or_periapsis.is_positive()
                    &&& !angles_fit(elements)
                },
            },
    {
        Orbit::new(OrbitClass::Elliptical, elements)
    }

    /// A parabolic orbit: the eccentricity handed in must be one, and the
    /// distance, which is the periapsis distance, positive.
    pub fn new_parabolic(elements: OrbitElements) -> (r: Result<Orbit, InvalidElementsError>)
        ensures
            match r {
                Ok(orbit) => {
                    &&& orbit@.wf()
                    &&& orbit@.class == OrbitClass::Parabolic
                    &&& orbit@.elements == elements
                },
                Err(InvalidElementsError::Eccentricity) => !elements.eccentricity.same_value(
                    Scalar::one(),
                ),
                Err(InvalidElementsError::Distance) => {
                    &&& elements.eccentricity.same_value(Scalar::one())
                    &&& !elements.semimajor_axis_or_periapsis.is_positive()
                },
                Err(InvalidElementsError::Angle) => {
                    &&& elements.eccentricity.same_value(Scalar::one())
                    &&& elements.semimajor_axis_or_periapsis.is_positive()
                    &&& !angles_fit(elements)
                },
            },
    {
        Orbit::new(OrbitClass::Parabolic, elements)
    }

    /// A hyperbolic orbit: a finite `e > 1` and a negative semimajor axis.
    pub fn new_hyperbolic(elements: OrbitElements) -> (r: Result<Orbit, InvalidElementsError>)
        ensures
            match r {
                Ok(orbit) => {
                    &&& orbit@.wf()
                    &&& orbit@.class == OrbitClass::Hyperbolic
                    &&& orbit@.elements == elements
                },
                Err(InvalidElementsError::Eccentricity) => !(Scalar::one().lt(elements.eccentricity)
                    && elements.eccentricity.is_finite()),
                Err(InvalidElementsError::Distance) => {
                    &&& Scalar::one().lt(elements.eccentricity)
                    &&& elements.eccentricity.is_finite()
                    &&& !elements.semimajor_axis_or_periapsis.is_negative()
                },
                Err(InvalidElementsError::Angle) => {
                    &&& Scalar::one().lt(elements.eccentricity)
                    &&& elements.eccentricity.is_finite()
                    &&& elements.semimajor_axis_or_periapsis.is_negative()
                    &&& !angles_fit(elements)
                },
            },
    {
        Orbit::new(OrbitClass::Hyperbolic, elements)
    }

    /// The class that the orbit was made as.
    pub fn class(&self) -> (class: OrbitClass)
        ensures
            class == self@.class,
    {
        self.class
    }

    /// The elements as they were handed in.
    pub fn elements(&self) -> (elements: OrbitElements)
        ensures
            elements == self@.elements,
            self@.wf(),
    {
        proof {
            use_type_invariant(self);
        }
        self.elements
    }

    /// Whether the body returns: true of a circle and an ellipse.
    pub fn is_bound(&self) -> (r: bool)
        ensures
            r == self@.class.is_bound(),
    {
        self.class.is_bound()
    }

    /// Zero on a circle, one on a parabola, the stored value otherwise. It is
    /// a finite number, not negative, and below one exactly on the bound
    /// orbits.
    pub fn eccentricity(&self) -> (e: Scalar)
        ensures
            e == self@.eccentricity(),
            e.is_finite(),
            Scalar::zero().le(e),
            e.lt(Scalar::one()) == self@.class.is_bound(),
            e.same_value(Scalar::one()) == (self@.class is Parabolic),
    {
        proof {
            use_type_invariant(self);
            lemma_class_by_eccentricity(self@);
            lemma_elements_finite(self@);
        }
        match self.class {
            OrbitClass::Circular => Scalar::zero(),
            OrbitClass::Parabolic => Scalar::one(),
            _ => self.elements.eccentricity,
        }
    }

    /// The semimajor axis, which a parabola does not have: `None` there is
    /// the answer, not a failure. It is positive on bound orbits and negative
    /// on a hyperbola.
    pub fn semimajor_axis(&self) -> (a: Option<Scalar>)
        ensures
            a == self@.semimajor_axis(),
            a is None <==> self@.class is Parabolic,
            a matches Some(x) ==> if self@.class is Hyperbolic {
                x.is_negative()
            } else {
                x.is_positive()
            },
    {
        proof {
            use_type_invariant(self);
        }
        match self.class {
            OrbitClass::Parabolic => None,
            _ => Some(self.elements.semimajor_axis_or_periapsis),
        }
    }

    /// Radians.
    pub fn inclination(&self) -> (i: Scalar)
        ensures
            i == self@.elements.inclination,
            i.is_finite(),
    {
        proof {
            use_type_invariant(self);
        }
        self.elements.inclination
    }

    /// Longitude of the ascending node, radians.
    pub fn angle_of_ascending_node(&self) -> (node: Scalar)
        ensures
            node == self@.elements.ascending_node,
            node.is_finite(),
    {
        proof {
            use_type_invariant(self);
        }
        self.elements.ascending_node
    }

    /// Argument of periapsis, radians.
    pub fn angle_of_periapsis(&self) -> (w: Scalar)
        ensures
            w == self@.elements.angle_of_periapsis,
            w.is_finite(),
    {
        proof {
            use_type_invariant(self);
        }
        self.elements.angle_of_periapsis
    }
}

/// The class of a well-formed orbit can be read off its eccentricity, but for
/// the circle, which an ellipse of eccentricity zero resembles: below one the
/// orbit is bound, at one it is a parabola, above one a hyperbola.
pub proof fn lemma_class_by_eccentricity(orbit: OrbitView)
    requires
        orbit.wf(),
    ensures
        orbit.eccentricity().lt(Scalar::one()) <==> orbit.class.is_bound(),
        orbit.eccentricity().same_value(Scalar::one()) <==> orbit.class is Parabolic,
        Scalar::one().lt(orbit.eccentricity()) <==> orbit.class is Hyperbolic,
        orbit.eccentricity().is_zero() <== orbit.class is Circular,
{
    lemma_unit_values();
    lemma_pow2_pos(1074);
}

/// Every element of a well-formed orbit is a finite number, and so is the
/// eccentricity that it reports.
pub proof fn lemma_elements_finite(orbit: OrbitView)
    requires
        orbit.wf(),
    ensures
        orbit.elements.eccentricity.is_finite(),
        orbit.elements.semimajor_axis_or_periapsis.is_finite(),
        orbit.elements.inclination.is_finite(),
        orbit.elements.ascending_node.is_finite(),
        orbit.elements.angle_of_periapsis.is_finite(),
        orbit.eccentricity().is_finite(),
        Scalar::zero().le(orbit.eccentricity()),
{
    let e = orbit.elements.eccentricity;
    lemma_unit_values();
    lemma_magnitude_order(e, Scalar::one());
    lemma_magnitude_order(Scalar::one(), e);
    lemma_magnitude_order(e, e);
}

/// An ellipse of eccentricity zero and the circle of the same elements answer
/// every query on the elements alike: the same eccentricity, the same
/// semimajor axis, the same angles, and both are bound.
pub proof fn lemma_circular_limit(circle: OrbitView, ellipse: OrbitView)
    requires
        circle.wf(),
        ellipse.wf(),
        circle.class is Circular,
        ellipse.class is Elliptical,
        ellipse.elements.eccentricity.is_zero(),
        circle.elements.semimajor_axis_or_periapsis
            == ellipse.elements.semimajor_axis_or_periapsis,
        circle.elements.inclination == ellipse.elements.inclination,
        circle.elements.ascending_node == ellipse.elements.ascending_node,
        circle.elements.angle_of_periapsis == ellipse.elements.angle_of_periapsis,
    ensures
        circle.eccentricity().same_value(ellipse.eccentricity()),
        circle.semimajor_axis() == ellipse.semimajor_axis(),
        circle.class.is_bound() && ellipse.class.is_bound(),
{
}

} // verus!
