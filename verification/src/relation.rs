//! The closed-form relations of an orbit, as questions to the arithmetic.
//!
//! A `Relation` names a formula and holds its operands. The library decides
//! which relation answers a query and what it accepts as the answer: a finite
//! number of the sign that the quantity has by its nature. A value that is
//! not accepted becomes an error and goes no further.

use crate::arithmetic::Arithmetic;
use crate::orbit::OrbitClass;
use crate::scalar::Scalar;
use vstd::prelude::*;

verus! {

/// A formula to be evaluated at the operands it holds. Distances are in
/// metres, times in seconds, angles in radians; `k` is the gravitational
/// parameter in m^3 / s^2.
#[derive(Clone, Copy, Debug, PartialEq)]
pub enum Relation {
    /// `mass * G`, the gravitational parameter `k`.
    GravitationalParameter { mass: Scalar, gravitational_constant: Scalar },
    /// `a (1 - e)`, the periapsis distance of an ellipse or a hyperbola.
    Periapsis { semimajor_axis: Scalar, eccentricity: Scalar },
    /// `a (1 - e^2)`, the semi-latus rectum of an ellipse or a hyperbola.
    SemiLatusRectum { semimajor_axis: Scalar, eccentricity: Scalar },
    /// `2 q`, the semi-latus rectum of a parabola.
    ParabolicSemiLatusRectum { periapsis: Scalar },
    /// `p / (1 + e cos v)`, the distance from the focus.
    Distance { parameter: Scalar, eccentricity: Scalar, true_anomaly: Scalar },
    /// `sqrt(k (2 / r - 1 / a))`, the vis-viva law, with the semimajor axis
    /// `a` in `axis`; where the orbit has none, the term `1 / a` is zero.
    Speed { k: Scalar, distance: Scalar, axis: Option<Scalar> },
    /// `-k / (2 a)`, the specific orbital energy.
    Energy { k: Scalar, semimajor_axis: Scalar },
    /// `2 pi sqrt(a^3 / k)`, Kepler's third law.
    Period { k: Scalar, semimajor_axis: Scalar },
    /// `sqrt(k p)`, the specific angular momentum.
    AngularMomentum { k: Scalar, parameter: Scalar },
    /// `atan(e sin v / (1 + e cos v))`, the angle of the velocity above the
    /// local horizontal.
    FlightPathAngle { eccentricity: Scalar, true_anomaly: Scalar },
    /// `v / 2`, the same angle on a parabola.
    HalfTrueAnomaly { true_anomaly: Scalar },
    /// The eccentric anomaly that belongs to a true anomaly: `E` with
    /// `tan(E / 2) = sqrt((1 - e) / (1 + e)) tan(v / 2)` on an ellipse,
    /// `D = tan(v / 2)` on a parabola, `F` with
    /// `tanh(F / 2) = sqrt((e - 1) / (e + 1)) tan(v / 2)` on a hyperbola.
    EccentricAnomaly { class: OrbitClass, eccentricity: Scalar, true_anomaly: Scalar },
    /// The mean anomaly that belongs to an eccentric anomaly: `E - e sin E`
    /// on an ellipse, `D + D^3 / 3` on a parabola, `e sinh F - F` on a
    /// hyperbola.
    MeanAnomaly { class: OrbitClass, eccentricity: Scalar, eccentric_anomaly: Scalar },
}

/// Why a quantity could not be given.
#[derive(Clone, Copy, Debug, PartialEq, Eq, Structural)]
pub enum QuantityError {
    /// The value is a NaN or infinite: a denominator vanished, or the result
    /// left the range of binary64.
    NotFinite,
    /// The value is finite but does not have the sign of the quantity: a
    /// distance that is not positive, a bound orbit of positive energy.
    OutOfRange,
}

impl Relation {
    /// The finite values that are accepted: distances, the gravitational
    /// parameter, the period and the angular momentum are positive; a speed
    /// is not negative; the energy has the sign opposite to the semimajor
    /// axis; an angle or an anomaly may be any number.
    pub open spec fn admits(self, value: Scalar) -> bool {
        match self {
            Relation::Speed { .. } => Scalar::zero().le(value),
            Relation::Energy { semimajor_axis, .. } => {
                ||| semimajor_axis.is_positive() && value.is_negative()
                ||| semimajor_axis.is_negative() && value.is_positive()
            },
            Relation::FlightPathAngle { .. } => true,
            Relation::HalfTrueAnomaly { .. } => true,
            Relation::EccentricAnomaly { .. } => true,
            Relation::MeanAnomaly { .. } => true,
            _ => value.is_positive(),
        }
    }

    /// Every operand is a finite number.
    pub open spec fn operands_finite(self) -> bool {
        match self {
            Relation::GravitationalParameter { mass, gravitational_constant } => {
                mass.is_finite() && gravitational_constant.is_finite()
            },
            Relation::Periapsis { semimajor_axis, eccentricity } => {
                semimajor_axis.is_finite() && eccentricity.is_finite()
            },
            Relation::SemiLatusRectum { semimajor_axis, eccentricity } => {
                semimajor_axis.is_finite() && eccentricity.is_finite()
            },
            Relation::ParabolicSemiLatusRectum { periapsis } => periapsis.is_finite(),
            Relation::Distance { parameter, eccentricity, true_anomaly } => {
                parameter.is_finite() && eccentricity.is_finite() && true_anomaly.is_finite()
            },
            Relation::Speed { k, distance, axis } => {
                &&& k.is_finite()
                &&& distance.is_finite()
                &&& axis matches Some(a) ==> a.is_finite()
            },
            Relation::Energy { k, semimajor_axis } => k.is_finite() && semimajor_axis.is_finite(),
            Relation::Period { k, semimajor_axis } => k.is_finite() && semimajor_axis.is_finite(),
            Relation::AngularMomentum { k, parameter } => k.is_finite() && parameter.is_finite(),
            Relation::FlightPathAngle { eccentricity, true_anomaly } => {
                eccentricity.is_finite() && true_anomaly.is_finite()
            },
            Relation::HalfTrueAnomaly { true_anomaly } => true_anomaly.is_finite(),
            Relation::EccentricAnomaly { eccentricity, true_anomaly, .. } => {
                eccentricity.is_finite() && true_anomaly.is_finite()
            },
            Relation::MeanAnomaly { eccentricity, eccentric_anomaly, .. } => {
                eccentricity.is_finite() && eccentric_anomaly.is_finite()
            },
        }
    }

    /// What the library makes of a value that came back for the relation.
    pub open spec fn spec_settle(self, value: Scalar) -> Result<Scalar, QuantityError> {
        if !value.is_finite() {
            Err(QuantityError::NotFinite)
        } else if !self.admits(value) {
            Err(QuantityError::OutOfRange)
        } else {
            Ok(value)
        }
    }

    /// `outcome` is what the library makes of some value for the relation.
    pub open spec fn settles(self, outcome: Result<Scalar, QuantityError>) -> bool {
        exists|value: Scalar| outcome == #[trigger] self.spec_settle(value)
    }

    fn check(self, value: Scalar) -> (r: bool)
        ensures
            r == self.admits(value),
    {
        match self {
            Relation::Speed { .. } => Scalar::zero().le(value),
            Relation::Energy { semimajor_axis, .. } => {
                (semimajor_axis.is_positive() && value.is_negative()) || (
                semimajor_axis.is_negative() && value.is_positive())
            },
            Relation::FlightPathAngle { .. } => true,
            Relation::HalfTrueAnomaly { .. } => true,
            Relation::EccentricAnomaly { .. } => true,
            Relation::MeanAnomaly { .. } => true,
            _ => value.is_positive(),
        }
    }

    /// Takes a value that came back for the relation: it is handed on if it
    /// is finite and has the sign of the quantity, and is an error otherwise.
    #[verifier::when_used_as_spec(spec_settle)]
    pub fn settle(self, value: Scalar) -> (r: Result<Scalar, QuantityError>)
        ensures
            r == self.spec_settle(value),
    {
        if !value.is_finite() {
            Err(QuantityError::NotFinite)
        } else if !self.check(value) {
            Err(QuantityError::OutOfRange)
        } else {
            Ok(value)
        }
    }

    /// Has the relation evaluated, and takes the value that comes back.
    pub fn evaluated_by<A: Arithmetic>(self, arithmetic: &A) -> (r: Result<Scalar, QuantityError>)
        ensures
            self.settles(r),
            r matches Ok(value) ==> value.is_finite() && self.admits(value),
    {
        let value = arithmetic.evaluate(self);
        self.settle(value)
    }
}

/// How a quantity is come by: it is known as it stands, or a relation has to
/// be evaluated.
#[derive(Clone, Copy, Debug, PartialEq)]
pub enum Plan {
    Known(Scalar),
    Asked(Relation),
}

impl Plan {
    /// No NaN and no infinity is in the plan: the known value is finite, or
    /// every operand of the relation is.
    pub open spec fn is_finite(self) -> bool {
        match self {
            Plan::Known(value) => value.is_finite(),
            Plan::Asked(relation) => relation.operands_finite(),
        }
    }

    /// `outcome` is what carrying out the plan can end in.
    pub open spec fn ends_in(self, outcome: Result<Scalar, QuantityError>) -> bool {
        match self {
            Plan::Known(value) => outcome == Ok::<Scalar, QuantityError>(value),
            Plan::Asked(relation) => relation.settles(outcome),
        }
    }

    /// The known value, or the relation evaluated by `arithmetic` and
    /// settled.
    pub fn carried_out<A: Arithmetic>(self, arithmetic: &A) -> (r: Result<Scalar, QuantityError>)
        ensures
            self.ends_in(r),
            self matches Plan::Asked(relation) ==> (r matches Ok(value) ==> value.is_finite()
                && relation.admits(value)),
    {
        match self {
            Plan::Known(value) => Ok(value),
            Plan::Asked(relation) => relation.evaluated_by(arithmetic),
        }
    }
}

} // verus!
