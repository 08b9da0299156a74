//! The position of a body along its orbit at one instant.

use crate::scalar::Scalar;
use vstd::prelude::*;
use vstd::std_specs::cmp::PartialEqSpecImpl;

verus! {

/// What an anomaly record holds.
pub struct AnomalyView {
    /// Milliseconds of simulation time since the epoch, which is a periapsis
    /// passage unless the caller anchors it otherwise.
    pub time_ms: u64,
    /// The angle at the focus between periapsis and the body, radians.
    pub true_anomaly: Scalar,
    /// The eccentric anomaly of a circle or an ellipse in radians, the
    /// parameter `D` of Barker's equation on a parabola, the hyperbolic
    /// anomaly `F` on a hyperbola.
    pub eccentric_anomaly: Scalar,
    /// The mean anomaly, which grows in proportion to time.
    pub mean_anomaly: Scalar,
}

impl AnomalyView {
    /// The three anomalies are finite numbers.
    pub open spec fn wf(self) -> bool {
        &&& self.true_anomaly.is_finite()
        &&& self.eccentric_anomaly.is_finite()
        &&& self.mean_anomaly.is_finite()
    }

    /// At periapsis every anomaly is zero, on every class of orbit.
    pub open spec fn at_periapsis(time_ms: u64) -> AnomalyView {
        AnomalyView {
            time_ms,
            true_anomaly: Scalar::zero(),
            eccentric_anomaly: Scalar::zero(),
            mean_anomaly: Scalar::zero(),
        }
    }

    /// The same instant and the same three numbers.
    pub open spec fn same_value(self, other: AnomalyView) -> bool {
        &&& self.time_ms == other.time_ms
        &&& self.true_anomaly.same_value(other.true_anomaly)
        &&& self.eccentric_anomaly.same_value(other.eccentric_anomaly)
        &&& self.mean_anomaly.same_value(other.mean_anomaly)
    }
}

/// An immutable snapshot of where the body is: the time and the true,
/// eccentric and mean anomaly, each a finite number.
#[derive(Clone, Copy, Debug)]
pub struct Anomaly {
    time_ms: u64,
    true_anomaly: Scalar,
    eccentric_anomaly: Scalar,
    mean_anomaly: Scalar,
}

impl View for Anomaly {
    type V = AnomalyView;

    closed spec fn view(&self) -> AnomalyView {
        AnomalyView {
            time_ms: self.time_ms,
            true_anomaly: self.true_anomaly,
            eccentric_anomaly: self.eccentric_anomaly,
            mean_anomaly: self.mean_anomaly,
        }
    }
}

impl Anomaly {
    #[verifier::type_invariant]
    spec fn inv(self) -> bool {
        self@.wf()
    }

    /// What an anomaly that may be absent holds.
    pub open spec fn view_of(anomaly: Option<Anomaly>) -> Option<AnomalyView> {
        match anomaly {
            Some(a) => Some(a@),
            None => None,
        }
    }

    /// The record of the four values, unless one of the anomalies is a NaN or
    /// infinite.
    pub fn new(
        time_ms: u64,
        true_anomaly: Scalar,
        eccentric_anomaly: Scalar,
        mean_anomaly: Scalar,
    ) -> (r: Option<Anomaly>)
        ensures
            r is Some <==> true_anomaly.is_finite() && eccentric_anomaly.is_finite()
                && mean_anomaly.is_finite(),
            r matches Some(a) ==> a@ == (AnomalyView {
                time_ms,
                true_anomaly,
                eccentric_anomaly,
                mean_anomaly,
            }),
    {
        if true_anomaly.is_finite() && eccentric_anomaly.is_finite() && mean_anomaly.is_finite() {
            Some(Anomaly { time_ms, true_anomaly, eccentric_anomaly, mean_anomaly })
        } else {
            None
        }
    }

    /// The body at periapsis at the given time.
    pub fn at_periapsis(time_ms: u64) -> (a: Anomaly)
        ensures
            a@ == AnomalyView::at_periapsis(time_ms),
            a@.wf(),
    {
        Anomaly {
            time_ms,
            true_anomaly: Scalar::zero(),
            eccentric_anomaly: Scalar::zero(),
            mean_anomaly: Scalar::zero(),
        }
    }

    /// Milliseconds of simulation time since the epoch.
    pub fn time_ms(&self) -> (t: u64)
        ensures
            t == self@.time_ms,
    {
        self.time_ms
    }

    /// The angle at the focus between periapsis and the body, radians.
    pub fn true_anomaly(&self) -> (v: Scalar)
        ensures
            v == self@.true_anomaly,
            v.is_finite(),
    {
        proof {
            use_type_invariant(self);
        }
        self.true_anomaly
    }

    /// The eccentric anomaly, or what stands for it on an unbound orbit.
    pub fn eccentric_anomaly(&self) -> (e: Scalar)
        ensures
            e == self@.eccentric_anomaly,
            e.is_finite(),
    {
        proof {
            use_type_invariant(self);
        }
        self.eccentric_anomaly
    }

    /// The mean anomaly.
    pub fn mean_anomaly(&self) -> (m: Scalar)
        ensures
            m == self@.mean_anomaly,
            m.is_finite(),
    {
        proof {
            use_type_invariant(self);
        }
        self.mean_anomaly
    }
}

/// Two records are equal when they hold the same instant and the same three
/// numbers.
impl PartialEq for Anomaly {
    fn eq(&self, other: &Anomaly) -> (r: bool) {
        self.time_ms == other.time_ms && self.true_anomaly.same_value(other.true_anomaly)
            && self.eccentric_anomaly.same_value(other.eccentric_anomaly)
            && self.mean_anomaly.same_value(other.mean_anomaly)
    }
}

impl PartialEqSpecImpl for Anomaly {
    open spec fn obeys_eq_spec() -> bool {
        true
    }

    open spec fn eq_spec(&self, other: &Anomaly) -> bool {
        self@.same_value(other@)
    }
}

} // verus!
