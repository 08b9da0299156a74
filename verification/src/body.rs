//! The body whose mass generates the gravitational field.

use crate::scalar::{lemma_magnitude_order, Scalar};
use vstd::prelude::*;

verus! {

/// The pattern of `6.67408e-11`, the gravitational constant in
/// m^3 kg^-1 s^-2.
pub const GRAVITATIONAL_CONSTANT_BITS: u64 = 0x3dd2_5877_5e37_fa03;

/// Why a gravitating body could not be made: the first quantity, in the order
/// mass, radius, gravitational constant, that is not a finite number above
/// zero.
#[derive(Clone, Copy, Debug, PartialEq, Eq, Structural)]
pub enum InvalidBodyError {
    Mass,
    Radius,
    GravitationalConstant,
}

/// What a gravitating body holds.
pub struct BodyView {
    /// Kilograms.
    pub mass: Scalar,
    /// Metres.
    pub radius: Scalar,
    /// m^3 kg^-1 s^-2.
    pub gravitational_constant: Scalar,
}

impl BodyView {
    /// Each quantity is a finite number above zero.
    pub open spec fn wf(self) -> bool {
        &&& self.mass.is_positive()
        &&& self.radius.is_positive()
        &&& self.gravitational_constant.is_positive()
    }
}

/// An immutable description of the mass that generates the field. It keeps
/// the mass and the gravitational constant and nothing derived from them, so
/// the gravitational parameter `mass * G` is always computed from the mass it
/// belongs to.
#[derive(Clone, Copy, Debug, PartialEq)]
pub struct GravitatingBody {
    mass: Scalar,
    radius: Scalar,
    gravitational_constant: Scalar,
}

impl View for GravitatingBody {
    type V = BodyView;

    closed spec fn view(&self) -> BodyView {
        BodyView {
            mass: self.mass,
            radius: self.radius,
            gravitational_constant: self.gravitational_constant,
        }
    }
}

impl GravitatingBody {
    #[verifier::type_invariant]
    spec fn inv(self) -> bool {
        self@.wf()
    }

    /// A body of the given mass (kg) and radius (m) under the gravitational
    /// constant `g`. Each of the three must be a finite number above zero; the
    /// error names the first that is not.
    pub fn new(mass: Scalar, radius: Scalar, g: Scalar) -> (r: Result<GravitatingBody, InvalidBodyError>)
        ensures
            match r {
                Ok(body) => {
                    &&& body@.wf()
                    &&& body@.mass == mass
                    &&& body@.radius == radius
                    &&& body@.gravitational_constant == g
                },
                Err(InvalidBodyError::Mass) => !mass.is_positive(),
                Err(InvalidBodyError::Radius) => mass.is_positive() && !radius.is_positive(),
                Err(InvalidBodyError::GravitationalConstant) => {
                    &&& mass.is_positive()
                    &&& radius.is_positive()
                    &&& !g.is_positive()
                },
            },
    {
        if !mass.is_positive() {
            Err(InvalidBodyError::Mass)
        } else if !radius.is_positive() {
            Err(InvalidBodyError::Radius)
        } else if !g.is_positive() {
            Err(InvalidBodyError::GravitationalConstant)
        } else {
            Ok(GravitatingBody { mass, radius, gravitational_constant: g })
        }
    }

    /// Kilograms.
    pub fn mass(&self) -> (m: Scalar)
        ensures
            m == self@.mass,
            m.is_positive(),
    {
        proof {
            use_type_invariant(self);
        }
        self.mass
    }

    /// Metres.
    pub fn radius(&self) -> (r: Scalar)
        ensures
            r == self@.radius,
            r.is_positive(),
    {
        proof {
            use_type_invariant(self);
        }
        self.radius
    }

    /// m^3 kg^-1 s^-2.
    pub fn gravitational_constant(&self) -> (g: Scalar)
        ensures
            g == self@.gravitational_constant,
            g.is_positive(),
    {
        proof {
            use_type_invariant(self);
        }
        self.gravitational_constant
    }
}

impl Default for GravitatingBody {
    /// The unit body: one kilogram, one metre, under the gravitational
    /// constant `6.67408e-11`.
    fn default() -> (body: GravitatingBody)
        ensures
            body@.wf(),
            body@.mass == Scalar::one(),
            body@.radius == Scalar::one(),
            body@.gravitational_constant == (Scalar { bits: GRAVITATIONAL_CONSTANT_BITS }),
    {
        let one = Scalar::one();
        let g = Scalar::from_bits(GRAVITATIONAL_CONSTANT_BITS);
        proof {
            lemma_magnitude_order(one, one);
            lemma_magnitude_order(g, g);
        }
        GravitatingBody { mass: one, radius: one, gravitational_constant: g }
    }
}

} // verus!
