//! What an orbit and its body determine: distances, speeds, energy, period.
//!
//! Each quantity has a plan, which says whether the answer is known as it
//! stands (the radius of a circle, the energy of a parabola) or which relation
//! gives it, and a query, which carries the plan out with an `Arithmetic`.
//! The plans are exact; the queries accept only finite values of the sign
//! that the quantity has, so no NaN and no infinity is ever handed on.

use crate::anomaly::Anomaly;
use crate::arithmetic::Arithmetic;
use crate::body::{BodyView, GravitatingBody};
use crate::orbit::{lemma_elements_finite, Orbit, OrbitClass, OrbitView};
use crate::relation::{Plan, QuantityError, Relation};
use crate::scalar::{lemma_unit_values, Scalar};
use vstd::arithmetic::power2::lemma_pow2_pos;
use vstd::prelude::*;

verus! {

impl BodyView {
    /// The gravitational parameter is the product of the mass and the
    /// gravitational constant.
    pub open spec fn k_plan(self) -> Plan {
        Plan::Asked(
            Relation::GravitationalParameter {
                mass: self.mass,
                gravitational_constant: self.gravitational_constant,
            },
        )
    }
}

impl GravitatingBody {
    /// How the gravitational parameter is come by.
    pub fn k_plan(&self) -> (plan: Plan)
        ensures
            plan == self@.k_plan(),
    {
        Plan::Asked(
            Relation::GravitationalParameter {
                mass: self.mass(),
                gravitational_constant: self.gravitational_constant(),
            },
        )
    }

    /// The gravitational parameter `mass * G` in m^3 / s^2. It is computed
    /// from the mass each time it is asked for, and it is positive.
    pub fn k<A: Arithmetic>(&self, arithmetic: &A) -> (r: Result<Scalar, QuantityError>)
        ensures
            self@.k_plan().ends_in(r),
            r matches Ok(k) ==> k.is_positive(),
    {
        self.k_plan().carried_out(arithmetic)
    }
}

impl OrbitView {
    /// The distance that the elements hold: the semimajor axis, or the
    /// periapsis distance of a parabola.
    pub open spec fn stored_distance(self) -> Scalar {
        self.elements.semimajor_axis_or_periapsis
    }

    /// The periapsis distance `q` is stored on a circle and a parabola and
    /// is `a (1 - e)` on an ellipse and a hyperbola.
    pub open spec fn periapsis_plan(self) -> Plan {
        match self.class {
            OrbitClass::Circular => Plan::Known(self.stored_distance()),
            OrbitClass::Parabolic => Plan::Known(self.stored_distance()),
            _ => Plan::Asked(
                Relation::Periapsis {
                    semimajor_axis: self.stored_distance(),
                    eccentricity: self.eccentricity(),
                },
            ),
        }
    }

    /// The semi-latus rectum `p` is the radius of a circle, `2 q` on a
    /// parabola, and `a (1 - e^2)` on an ellipse and a hyperbola.
    pub open spec fn parameter_plan(self) -> Plan {
        match self.class {
            OrbitClass::Circular => Plan::Known(self.stored_distance()),
            OrbitClass::Parabolic => Plan::Asked(
                Relation::ParabolicSemiLatusRectum { periapsis: self.stored_distance() },
            ),
            _ => Plan::Asked(
                Relation::SemiLatusRectum {
                    semimajor_axis: self.stored_distance(),
                    eccentricity: self.eccentricity(),
                },
            ),
        }
    }

    /// The distance from the parent is the radius on a circle and
    /// `p / (1 + e cos v)` elsewhere.
    pub open spec fn distance_plan(self, parameter: Scalar, true_anomaly: Scalar) -> Plan {
        match self.class {
            OrbitClass::Circular => Plan::Known(self.stored_distance()),
            _ => Plan::Asked(
                Relation::Distance { parameter, eccentricity: self.eccentricity(), true_anomaly },
            ),
        }
    }

    /// The speed at the distance `r` follows the vis-viva law on every
    /// class, with the semimajor axis where the orbit has one.
    pub open spec fn speed_plan(self, k: Scalar, distance: Scalar) -> Plan {
        Plan::Asked(Relation::Speed { k, distance, axis: self.semimajor_axis() })
    }

    /// The energy is exactly zero on a parabola and `-k / (2 a)` elsewhere.
    pub open spec fn energy_plan(self, k: Scalar) -> Plan {
        match self.semimajor_axis() {
            None => Plan::Known(Scalar::zero()),
            Some(a) => Plan::Asked(Relation::Energy { k, semimajor_axis: a }),
        }
    }

    /// A bound orbit has the period `2 pi sqrt(a^3 / k)`; an unbound orbit
    /// has none.
    pub open spec fn period_plan(self, k: Scalar) -> Option<Plan> {
        if self.class.is_bound() {
            Some(Plan::Asked(Relation::Period { k, semimajor_axis: self.stored_distance() }))
        } else {
            None
        }
    }

    /// The angular momentum is `sqrt(k p)` on every class.
    pub open spec fn areal_velocity_plan(self, k: Scalar, parameter: Scalar) -> Plan {
        Plan::Asked(Relation::AngularMomentum { k, parameter })
    }

    /// The velocity is horizontal on a circle; on a parabola its angle is
    /// half the true anomaly; elsewhere it is
    /// `atan(e sin v / (1 + e cos v))`.
    pub open spec fn angle_of_velocity_plan(self, true_anomaly: Scalar) -> Plan {
        match self.class {
            OrbitClass::Circular => Plan::Known(Scalar::zero()),
            OrbitClass::Parabolic => Plan::Asked(Relation::HalfTrueAnomaly { true_anomaly }),
            _ => Plan::Asked(
                Relation::FlightPathAngle { eccentricity: self.eccentricity(), true_anomaly },
            ),
        }
    }

    /// On a circle the eccentric anomaly is the true anomaly.
    pub open spec fn eccentric_anomaly_plan(self, true_anomaly: Scalar) -> Plan {
        match self.class {
            OrbitClass::Circular => Plan::Known(true_anomaly),
            _ => Plan::Asked(
                Relation::EccentricAnomaly {
                    class: self.class,
                    eccentricity: self.eccentricity(),
                    true_anomaly,
                },
            ),
        }
    }

    /// On a circle the mean anomaly is the eccentric anomaly.
    pub open spec fn mean_anomaly_plan(self, eccentric_anomaly: Scalar) -> Plan {
        match self.class {
            OrbitClass::Circular => Plan::Known(eccentric_anomaly),
            _ => Plan::Asked(
                Relation::MeanAnomaly {
                    class: self.class,
                    eccentricity: self.eccentricity(),
                    eccentric_anomaly,
                },
            ),
        }
    }
}

impl OrbitView {
    /// `outcome` is what the distance query can end in at the true anomaly:
    /// the error on the way to the semi-latus rectum, or else what the plan
    /// for the distance ends in at the semi-latus rectum that was accepted.
    pub open spec fn distance_ends_in(
        self,
        true_anomaly: Scalar,
        outcome: Result<Scalar, QuantityError>,
    ) -> bool {
        exists|parameter: Result<Scalar, QuantityError>| #[trigger]
            self.parameter_plan().ends_in(parameter) && match parameter {
                Err(error) => outcome == Err::<Scalar, QuantityError>(error),
                Ok(p) => self.distance_plan(p, true_anomaly).ends_in(outcome),
            }
    }

    /// `outcome` follows `distance` at the gravitational parameter `k`: the
    /// error of the distance, or else what the vis-viva law ends in at the
    /// distance that was accepted.
    pub open spec fn speed_follows(
        self,
        k: Scalar,
        distance: Result<Scalar, QuantityError>,
        outcome: Result<Scalar, QuantityError>,
    ) -> bool {
        match distance {
            Err(error) => outcome == Err::<Scalar, QuantityError>(error),
            Ok(d) => self.speed_plan(k, d).ends_in(outcome),
        }
    }

    /// `outcome` is what the velocity query can end in at the true anomaly.
    /// The gravitational parameter comes first and its error ends the query;
    /// then the distance at the true anomaly, and its error ends the query;
    /// then the vis-viva law at the two values that were accepted.
    pub open spec fn velocity_ends_in(
        self,
        body: BodyView,
        true_anomaly: Scalar,
        outcome: Result<Scalar, QuantityError>,
    ) -> bool {
        exists|k: Result<Scalar, QuantityError>| #[trigger]
            body.k_plan().ends_in(k) && match k {
                Err(error) => outcome == Err::<Scalar, QuantityError>(error),
                Ok(k) => exists|distance: Result<Scalar, QuantityError>| #[trigger]
                    self.distance_ends_in(true_anomaly, distance) && self.speed_follows(
                        k,
                        distance,
                        outcome,
                    ),
            }
    }

    /// `outcome` is what the query for the speed at periapsis can end in.
    /// The gravitational parameter comes first and its error ends the query;
    /// then the periapsis distance, and its error ends the query; then the
    /// vis-viva law at the two values that were accepted.
    pub open spec fn velocity_at_periapsis_ends_in(
        self,
        body: BodyView,
        outcome: Result<Scalar, QuantityError>,
    ) -> bool {
        exists|k: Result<Scalar, QuantityError>| #[trigger]
            body.k_plan().ends_in(k) && match k {
                Err(error) => outcome == Err::<Scalar, QuantityError>(error),
                Ok(k) => exists|periapsis: Result<Scalar, QuantityError>| #[trigger]
                    self.periapsis_plan().ends_in(periapsis) && self.speed_follows(
                        k,
                        periapsis,
                        outcome,
                    ),
            }
    }

    /// `outcome` follows `parameter` at the gravitational parameter `k`: the
    /// error of the semi-latus rectum, or else what the plan for the angular
    /// momentum ends in at the semi-latus rectum that was accepted.
    pub open spec fn momentum_follows(
        self,
        k: Scalar,
        parameter: Result<Scalar, QuantityError>,
        outcome: Result<Scalar, QuantityError>,
    ) -> bool {
        match parameter {
            Err(error) => outcome == Err::<Scalar, QuantityError>(error),
            Ok(p) => self.areal_velocity_plan(k, p).ends_in(outcome),
        }
    }

    /// `outcome` is what the query for the angular momentum can end in. The
    /// gravitational parameter comes first and its error ends the query; then
    /// the semi-latus rectum, and its error ends the query; then `sqrt(k p)`
    /// at the two values that were accepted.
    pub open spec fn areal_velocity_ends_in(
        self,
        body: BodyView,
        outcome: Result<Scalar, QuantityError>,
    ) -> bool {
        exists|k: Result<Scalar, QuantityError>| #[trigger]
            body.k_plan().ends_in(k) && match k {
                Err(error) => outcome == Err::<Scalar, QuantityError>(error),
                Ok(k) => exists|parameter: Result<Scalar, QuantityError>| #[trigger]
                    self.parameter_plan().ends_in(parameter) && self.momentum_follows(
                        k,
                        parameter,
                        outcome,
                    ),
            }
    }
}

impl Orbit {
    /// How the periapsis distance is come by.
    pub fn periapsis_plan(&self) -> (plan: Plan)
        ensures
            plan == self@.periapsis_plan(),
            plan matches Plan::Known(periapsis) ==> periapsis.is_positive(),
    {
        let stored = self.elements().semimajor_axis_or_periapsis;
        match self.class() {
            OrbitClass::Circular => Plan::Known(stored),
            OrbitClass::Parabolic => Plan::Known(stored),
            _ => Plan::Asked(
                Relation::Periapsis { semimajor_axis: stored, eccentricity: self.eccentricity() },
            ),
        }
    }

    /// How the semi-latus rectum is come by.
    pub fn parameter_plan(&self) -> (plan: Plan)
        ensures
            plan == self@.parameter_plan(),
            plan matches Plan::Known(parameter) ==> parameter.is_positive(),
    {
        let stored = self.elements().semimajor_axis_or_periapsis;
        match self.class() {
            OrbitClass::Circular => Plan::Known(stored),
            OrbitClass::Parabolic => Plan::Asked(
                Relation::ParabolicSemiLatusRectum { periapsis: stored },
            ),
            _ => Plan::Asked(
                Relation::SemiLatusRectum {
                    semimajor_axis: stored,
                    eccentricity: self.eccentricity(),
                },
            ),
        }
    }

    /// How the distance from the parent is come by, given the semi-latus
    /// rectum.
    pub fn distance_plan(&self, parameter: Scalar, true_anomaly: Scalar) -> (plan: Plan)
        ensures
            plan == self@.distance_plan(parameter, true_anomaly),
            plan matches Plan::Known(distance) ==> distance.is_positive(),
    {
        match self.class() {
            OrbitClass::Circular => Plan::Known(self.elements().semimajor_axis_or_periapsis),
            _ => Plan::Asked(
                Relation::Distance { parameter, eccentricity: self.eccentricity(), true_anomaly },
            ),
        }
    }

    /// How the speed at a distance is come by, given the gravitational
    /// parameter.
    pub fn speed_plan(&self, k: Scalar, distance: Scalar) -> (plan: Plan)
        ensures
            plan == self@.speed_plan(k, distance),
    {
        Plan::Asked(Relation::Speed { k, distance, axis: self.semimajor_axis() })
    }

    /// How the energy is come by, given the gravitational parameter.
    pub fn energy_plan(&self, k: Scalar) -> (plan: Plan)
        ensures
            plan == self@.energy_plan(k),
    {
        match self.semimajor_axis() {
            None => Plan::Known(Scalar::zero()),
            Some(a) => Plan::Asked(Relation::Energy { k, semimajor_axis: a }),
        }
    }

    /// How the period is come by, given the gravitational parameter; `None`
    /// where the orbit has no period.
    pub fn period_plan(&self, k: Scalar) -> (plan: Option<Plan>)
        ensures
            plan == self@.period_plan(k),
    {
        if self.is_bound() {
            Some(
                Plan::Asked(
                    Relation::Period {
                        k,
                        semimajor_axis: self.elements().semimajor_axis_or_periapsis,
                    },
                ),
            )
        } else {
            None
        }
    }

    /// How the angular momentum is come by, given the gravitational
    /// parameter and the semi-latus rectum.
    pub fn areal_velocity_plan(&self, k: Scalar, parameter: Scalar) -> (plan: Plan)
        ensures
            plan == self@.areal_velocity_plan(k, parameter),
    {
        Plan::Asked(Relation::AngularMomentum { k, parameter })
    }

    /// How the angle of the velocity is come by.
    pub fn angle_of_velocity_plan(&self, true_anomaly: Scalar) -> (plan: Plan)
        ensures
            plan == self@.angle_of_velocity_plan(true_anomaly),
    {
        match self.class() {
            OrbitClass::Circular => Plan::Known(Scalar::zero()),
            OrbitClass::Parabolic => Plan::Asked(Relation::HalfTrueAnomaly { true_anomaly }),
            _ => Plan::Asked(
                Relation::FlightPathAngle { eccentricity: self.eccentricity(), true_anomaly },
            ),
        }
    }

    /// How the eccentric anomaly of a true anomaly is come by.
    pub fn eccentric_anomaly_plan(&self, true_anomaly: Scalar) -> (plan: Plan)
        ensures
            plan == self@.eccentric_anomaly_plan(true_anomaly),
    {
        match self.class() {
            OrbitClass::Circular => Plan::Known(true_anomaly),
            _ => Plan::Asked(
                Relation::EccentricAnomaly {
                    class: self.class(),
                    eccentricity: self.eccentricity(),
                    true_anomaly,
                },
            ),
        }
    }

    /// How the mean anomaly of an eccentric anomaly is come by.
    pub fn mean_anomaly_plan(&self, eccentric_anomaly: Scalar) -> (plan: Plan)
        ensures
            plan == self@.mean_anomaly_plan(eccentric_anomaly),
    {
        match self.class() {
            OrbitClass::Circular => Plan::Known(eccentric_anomaly),
            _ => Plan::Asked(
                Relation::MeanAnomaly {
                    class: self.class(),
                    eccentricity: self.eccentricity(),
                    eccentric_anomaly,
                },
            ),
        }
    }

    /// The periapsis distance `q`, which is positive: the stored distance on
    /// a circle and a parabola, `a (1 - e)` on an ellipse and a hyperbola.
    pub fn periapsis<A: Arithmetic>(&self, arithmetic: &A) -> (r: Result<Scalar, QuantityError>)
        ensures
            self@.periapsis_plan().ends_in(r),
            r matches Ok(q) ==> q.is_positive(),
    {
        self.periapsis_plan().carried_out(arithmetic)
    }

    /// The semi-latus rectum `p`, which is positive.
    pub fn parameter<A: Arithmetic>(&self, arithmetic: &A) -> (r: Result<Scalar, QuantityError>)
        ensures
            self@.parameter_plan().ends_in(r),
            r matches Ok(p) ==> p.is_positive(),
    {
        self.parameter_plan().carried_out(arithmetic)
    }

    /// The distance `r` from the parent body at the true anomaly of the
    /// record, which is positive: the radius on a circle, where nothing is
    /// computed, and `p / (1 + e cos v)` elsewhere.
    pub fn distance_from_parent<A: Arithmetic>(
        &self,
        arithmetic: &A,
        _body: &GravitatingBody,
        anomaly: &Anomaly,
    ) -> (r: Result<Scalar, QuantityError>)
        ensures
            self@.class is Circular ==> r == Ok::<Scalar, QuantityError>(self@.stored_distance()),
            r matches Ok(distance) ==> distance.is_positive(),
            r is Ok ==> exists|parameter: Scalar|
                parameter.is_positive() && #[trigger] self@.distance_plan(
                    parameter,
                    anomaly@.true_anomaly,
                ).ends_in(r),
            self@.distance_ends_in(anomaly@.true_anomaly, r),
    {
        let parameter = self.parameter(arithmetic);
        let r = match parameter {
            Err(error) => Err(error),
            Ok(p) => self.distance_plan(p, anomaly.true_anomaly()).carried_out(arithmetic),
        };
        assert(self@.parameter_plan().ends_in(parameter));
        r
    }

    /// The speed at the true anomaly of the record, by the vis-viva law
    /// `v^2 = k (2 / r - 1 / a)` at the distance `r` of that anomaly. It is
    /// finite and not negative. The gravitational parameter is settled
    /// first, then the distance, then the speed; the first of them that is
    /// not accepted ends the query with its error.
    pub fn velocity<A: Arithmetic>(
        &self,
        arithmetic: &A,
        body: &GravitatingBody,
        anomaly: &Anomaly,
    ) -> (r: Result<Scalar, QuantityError>)
        ensures
            r matches Ok(speed) ==> speed.is_finite() && Scalar::zero().le(speed),
            r is Ok ==> exists|k: Scalar, distance: Scalar|
                k.is_positive() && distance.is_positive() && #[trigger] self@.speed_plan(
                    k,
                    distance,
                ).ends_in(r),
            self@.velocity_ends_in(body@, anomaly@.true_anomaly, r),
    {
        let settled = body.k(arithmetic);
        let k = match settled {
            Err(error) => {
                assert(body@.k_plan().ends_in(settled));
                return Err(error);
            },
            Ok(k) => k,
        };
        let distance = self.distance_from_parent(arithmetic, body, anomaly);
        let r = match distance {
            Err(error) => Err(error),
            Ok(d) => self.speed_plan(k, d).carried_out(arithmetic),
        };
        assert(self@.distance_ends_in(anomaly@.true_anomaly, distance) && self@.speed_follows(
            k,
            distance,
            r,
        ));
        assert(body@.k_plan().ends_in(settled));
        r
    }

    /// The specific orbital energy `-k / (2 a)`: negative on a bound orbit,
    /// positive on a hyperbola, and exactly zero on a parabola, where nothing
    /// is computed.
    pub fn total_energy<A: Arithmetic>(&self, arithmetic: &A, body: &GravitatingBody) -> (r: Result<
        Scalar,
        QuantityError,
    >)
        ensures
            self@.class is Parabolic ==> r == Ok::<Scalar, QuantityError>(Scalar::zero()),
            r matches Ok(energy) ==> {
                &&& energy.is_finite()
                &&& self@.class.is_bound() ==> energy.is_negative()
                &&& self@.class is Hyperbolic ==> energy.is_positive()
            },
            r is Ok ==> exists|k: Scalar| k.is_positive() && #[trigger] self@.energy_plan(k).ends_in(r),
    {
        match self.semimajor_axis() {
            None => {
                proof {
                    lemma_unit_values();
                    lemma_pow2_pos(1074);
                    assert(self@.energy_plan(Scalar::one()).ends_in(
                        Ok::<Scalar, QuantityError>(Scalar::zero()),
                    ));
                }
                Ok(Scalar::zero())
            },
            Some(a) => match body.k(arithmetic) {
                Err(error) => Err(error),
                Ok(k) => self.energy_plan(k).carried_out(arithmetic),
            },
        }
    }

    /// The period `2 pi sqrt(a^3 / k)` of a bound orbit, in seconds, which is
    /// positive. An unbound orbit has none: `Ok(None)` is the answer there,
    /// not a failure, and nothing is computed.
    pub fn orbital_period<A: Arithmetic>(&self, arithmetic: &A, body: &GravitatingBody) -> (r:
        Result<Option<Scalar>, QuantityError>)
        ensures
            !self@.class.is_bound() ==> r == Ok::<Option<Scalar>, QuantityError>(None),
            self@.class.is_bound() ==> !(r matches Ok(None)),
            r matches Ok(Some(period)) ==> period.is_positive(),
            r matches Ok(Some(period)) ==> exists|k: Scalar|
                k.is_positive() && (#[trigger] self@.period_plan(k) matches Some(plan)
                    && plan.ends_in(Ok(period))),
    {
        if !self.is_bound() {
            return Ok(None);
        }
        let k = match body.k(arithmetic) {
            Err(error) => {
                return Err(error);
            },
            Ok(k) => k,
        };
        match self.period_plan(k) {
            None => Ok(None),
            Some(plan) => match plan.carried_out(arithmetic) {
                Err(error) => Err(error),
                Ok(period) => Ok(Some(period)),
            },
        }
    }

    /// The speed at periapsis, by the vis-viva law at `r = q`. It is finite
    /// and not negative. The gravitational parameter is settled first, then
    /// the periapsis distance, then the speed; the first of them that is not
    /// accepted ends the query with its error.
    pub fn velocity_at_periapsis<A: Arithmetic>(
        &self,
        arithmetic: &A,
        body: &GravitatingBody,
    ) -> (r: Result<Scalar, QuantityError>)
        ensures
            r matches Ok(speed) ==> speed.is_finite() && Scalar::zero().le(speed),
            r is Ok ==> exists|k: Scalar, periapsis: Scalar|
                k.is_positive() && periapsis.is_positive() && #[trigger] self@.speed_plan(
                    k,
                    periapsis,
                ).ends_in(r),
            self@.velocity_at_periapsis_ends_in(body@, r),
    {
        let settled = body.k(arithmetic);
        let k = match settled {
            Err(error) => {
                assert(body@.k_plan().ends_in(settled));
                return Err(error);
            },
            Ok(k) => k,
        };
        let periapsis = self.periapsis(arithmetic);
        let r = match periapsis {
            Err(error) => Err(error),
            Ok(q) => self.speed_plan(k, q).carried_out(arithmetic),
        };
        assert(self@.periapsis_plan().ends_in(periapsis) && self@.speed_follows(k, periapsis, r));
        assert(body@.k_plan().ends_in(settled));
        r
    }

    /// The specific angular momentum `sqrt(k p)`, which is positive: the
    /// distance squared times the rate of the true anomaly, the same at every
    /// point of the orbit. The gravitational parameter is settled first, then
    /// the semi-latus rectum, then the momentum; the first of them that is
    /// not accepted ends the query with its error.
    pub fn areal_velocity<A: Arithmetic>(&self, arithmetic: &A, body: &GravitatingBody) -> (r:
        Result<Scalar, QuantityError>)
        ensures
            r matches Ok(momentum) ==> momentum.is_positive(),
            r is Ok ==> exists|k: Scalar, parameter: Scalar|
                k.is_positive() && parameter.is_positive() && #[trigger] self@.areal_velocity_plan(
                    k,
                    parameter,
                ).ends_in(r),
            self@.areal_velocity_ends_in(body@, r),
    {
        let settled = body.k(arithmetic);
        let k = match settled {
            Err(error) => {
                assert(body@.k_plan().ends_in(settled));
                return Err(error);
            },
            Ok(k) => k,
        };
        let parameter = self.parameter(arithmetic);
        let r = match parameter {
            Err(error) => Err(error),
            Ok(p) => self.areal_velocity_plan(k, p).carried_out(arithmetic),
        };
        assert(self@.parameter_plan().ends_in(parameter) && self@.momentum_follows(
            k,
            parameter,
            r,
        ));
        assert(body@.k_plan().ends_in(settled));
        r
    }

    /// The angle of the velocity above the local horizontal at the true
    /// anomaly of the record: zero on a circle, where nothing is computed.
    pub fn angle_of_velocity<A: Arithmetic>(&self, arithmetic: &A, anomaly: &Anomaly) -> (r: Result<
        Scalar,
        QuantityError,
    >)
        ensures
            self@.angle_of_velocity_plan(anomaly@.true_anomaly).ends_in(r),
            r matches Ok(angle) ==> angle.is_finite(),
    {
        self.angle_of_velocity_plan(anomaly.true_anomaly()).carried_out(arithmetic)
    }

    /// The eccentric anomaly that belongs to the true anomaly of the record:
    /// the true anomaly itself on a circle, where nothing is computed.
    pub fn eccentric_anomaly<A: Arithmetic>(&self, arithmetic: &A, anomaly: &Anomaly) -> (r: Result<
        Scalar,
        QuantityError,
    >)
        ensures
            self@.eccentric_anomaly_plan(anomaly@.true_anomaly).ends_in(r),
            r matches Ok(eccentric) ==> eccentric.is_finite(),
    {
        self.eccentric_anomaly_plan(anomaly.true_anomaly()).carried_out(arithmetic)
    }

    /// The mean anomaly that belongs to the true anomaly of the record, by
    /// way of the eccentric anomaly: the true anomaly itself on a circle,
    /// where nothing is computed.
    pub fn mean_anomaly<A: Arithmetic>(&self, arithmetic: &A, anomaly: &Anomaly) -> (r: Result<
        Scalar,
        QuantityError,
    >)
        ensures
            self@.class is Circular ==> r == Ok::<Scalar, QuantityError>(anomaly@.true_anomaly),
            r matches Ok(mean) ==> mean.is_finite(),
            r is Ok ==> exists|eccentric: Scalar|
                eccentric.is_finite() && #[trigger] self@.mean_anomaly_plan(eccentric).ends_in(r),
    {
        match self.eccentric_anomaly(arithmetic, anomaly) {
            Err(error) => Err(error),
            Ok(eccentric) => self.mean_anomaly_plan(eccentric).carried_out(arithmetic),
        }
    }
}

/// Nothing that is asked of a parabola involves a semimajor axis, which it
/// does not have: its periapsis distance is stored, its semi-latus rectum is
/// twice that distance, its speed follows the vis-viva law without the term
/// `1 / a`, its energy is known to be zero, and it has no period.
pub proof fn lemma_parabola_needs_no_semimajor_axis(
    orbit: OrbitView,
    k: Scalar,
    distance: Scalar,
)
    requires
        orbit.class is Parabolic,
    ensures
        orbit.semimajor_axis() is None,
        orbit.periapsis_plan() == Plan::Known(orbit.stored_distance()),
        orbit.parameter_plan() == Plan::Asked(
            Relation::ParabolicSemiLatusRectum { periapsis: orbit.stored_distance() },
        ),
        orbit.speed_plan(k, distance) == Plan::Asked(
            Relation::Speed { k, distance, axis: None },
        ),
        orbit.energy_plan(k) == Plan::Known(Scalar::zero()),
        orbit.period_plan(k) is None,
{
}

/// No NaN and no infinity is handed to the arithmetic: the plans of a
/// well-formed orbit and body hold finite numbers only, whenever the values
/// that they are given from earlier results are finite.
pub proof fn lemma_plans_are_finite(
    body: BodyView,
    orbit: OrbitView,
    k: Scalar,
    parameter: Scalar,
    distance: Scalar,
    true_anomaly: Scalar,
    eccentric_anomaly: Scalar,
)
    requires
        body.wf(),
        orbit.wf(),
        k.is_finite(),
        parameter.is_finite(),
        distance.is_finite(),
        true_anomaly.is_finite(),
        eccentric_anomaly.is_finite(),
    ensures
        body.k_plan().is_finite(),
        orbit.periapsis_plan().is_finite(),
        orbit.parameter_plan().is_finite(),
        orbit.distance_plan(parameter, true_anomaly).is_finite(),
        orbit.speed_plan(k, distance).is_finite(),
        orbit.energy_plan(k).is_finite(),
        orbit.period_plan(k) matches Some(plan) ==> plan.is_finite(),
        orbit.areal_velocity_plan(k, parameter).is_finite(),
        orbit.angle_of_velocity_plan(true_anomaly).is_finite(),
        orbit.eccentric_anomaly_plan(true_anomaly).is_finite(),
        orbit.mean_anomaly_plan(eccentric_anomaly).is_finite(),
{
    lemma_elements_finite(orbit);
}

} // verus!
