//! Propagation of the anomaly in time: the decisions of the solver.
//!
//! Advancing a body along its orbit alternates between arithmetic on real
//! numbers (the mean motion, a Newton step on Kepler's equation, a tangent) and
//! decisions (is the time step admissible, which equation governs the class,
//! has the iteration converged, may it go on). The decisions live here, as a
//! machine of states: `AnomalySolver::start` and `AnomalySolver::resume` each
//! answer with the next `Request` for the arithmetic, with the finished
//! `Anomaly`, or with the error. `AnomalySolver::advance` runs the machine to
//! its end against an implementation of `Arithmetic`. The numbers that come
//! back are taken as they are, so everything proved here holds whatever the
//! arithmetic replies: a propagation ends within `MAX_ITERATIONS + 3` replies,
//! and the anomaly it ends with is finite, bears the right time and lies in
//! the canonical range.

use crate::anomaly::{Anomaly, AnomalyView};
use crate::arithmetic::Arithmetic;
use crate::body::{BodyView, GravitatingBody};
use crate::orbit::{lemma_elements_finite, Orbit, OrbitClass, OrbitView};
use crate::scalar::Scalar;
use vstd::prelude::*;

verus! {

/// The most Newton steps that are taken on one equation.
pub const MAX_ITERATIONS: u32 = 50;

/// The pattern of `1e-10`: an iteration has converged when a Newton step
/// moves the iterate by less than this.
pub const TOLERANCE_BITS: u64 = 0x3ddb_7cdf_d9d7_bdbb;

/// The pattern of the binary64 number nearest to `2 * pi`.
pub const TWO_PI_BITS: u64 = 0x4019_21fb_5444_2d18;

/// Why a propagation ended without an anomaly.
#[derive(Clone, Copy, Debug, PartialEq)]
pub enum PropagationError {
    /// The time step is negative: time only runs forward here.
    NegativeTimeDelta,
    /// The time of the new anomaly does not fit in 64 bits of milliseconds.
    TimeOverflow,
    /// The Newton iteration took `MAX_ITERATIONS` steps and the last of them
    /// still moved the iterate by the tolerance or more.
    DidNotConverge {
        /// The iterate after the last step.
        last_iterate: Scalar,
        /// What the equation leaves at that iterate.
        residual: Scalar,
    },
    /// A number that came back is a NaN or infinite, as after a division by
    /// a vanishing denominator.
    NotFinite,
    /// An angle of a bound orbit came back outside `[0, 2 * pi)`, or the mean
    /// anomaly of an unbound orbit came back smaller than it started.
    OutOfRange,
    /// The reply does not answer the request that was pending.
    UnexpectedReply,
}

/// The arithmetic that the solver asks for. Each request carries everything
/// that the computation depends on.
#[derive(Clone, Copy, Debug, PartialEq)]
pub enum Request {
    /// The mean anomaly after `elapsed_ms` more milliseconds: the given one
    /// plus the mean motion times the elapsed time, reduced into
    /// `[0, 2 * pi)` on a bound orbit. The mean motion is `sqrt(k / |a|^3)`
    /// with `k = mass * G`; on a parabola, where the mean anomaly is
    /// `D + D^3 / 3`, it is `sqrt(k / (2 q^3))`.
    AdvanceMeanAnomaly {
        class: OrbitClass,
        mass: Scalar,
        gravitational_constant: Scalar,
        semimajor_axis_or_periapsis: Scalar,
        mean_anomaly: Scalar,
        elapsed_ms: u64,
    },
    /// The starting point of the Newton iteration on the hyperbolic form of
    /// Kepler's equation, `M = e sinh F - F`.
    Seed { eccentricity: Scalar, mean_anomaly: Scalar },
    /// One Newton step from `iterate` on Kepler's equation `M = E - e sin E`,
    /// or on its hyperbolic form for a hyperbolic orbit.
    NewtonStep { class: OrbitClass, eccentricity: Scalar, mean_anomaly: Scalar, iterate: Scalar },
    /// The real root `D` of Barker's equation `M = D + D^3 / 3`.
    BarkerRoot { mean_anomaly: Scalar },
    /// The true anomaly that belongs to the eccentric anomaly, reduced into
    /// `[0, 2 * pi)` on a bound orbit.
    TrueAnomaly { class: OrbitClass, eccentricity: Scalar, eccentric_anomaly: Scalar },
}

impl Request {
    /// Every operand is a finite number.
    pub open spec fn operands_finite(self) -> bool {
        match self {
            Request::AdvanceMeanAnomaly {
                mass,
                gravitational_constant,
                semimajor_axis_or_periapsis,
                mean_anomaly,
                ..
            } => {
                &&& mass.is_finite()
                &&& gravitational_constant.is_finite()
                &&& semimajor_axis_or_periapsis.is_finite()
                &&& mean_anomaly.is_finite()
            },
            Request::Seed { eccentricity, mean_anomaly } => {
                eccentricity.is_finite() && mean_anomaly.is_finite()
            },
            Request::NewtonStep { eccentricity, mean_anomaly, iterate, .. } => {
                eccentricity.is_finite() && mean_anomaly.is_finite() && iterate.is_finite()
            },
            Request::BarkerRoot { mean_anomaly } => mean_anomaly.is_finite(),
            Request::TrueAnomaly { eccentricity, eccentric_anomaly, .. } => {
                eccentricity.is_finite() && eccentric_anomaly.is_finite()
            },
        }
    }
}

/// The answer to a `Request`, variant for variant.
#[derive(Clone, Copy, Debug, PartialEq)]
pub enum Reply {
    MeanAnomaly(Scalar),
    Seed(Scalar),
    NewtonStep {
        /// The iterate after the step.
        iterate: Scalar,
        /// The step: the new iterate minus the old one.
        correction: Scalar,
        /// What the equation leaves at the new iterate.
        residual: Scalar,
    },
    BarkerRoot(Scalar),
    TrueAnomaly(Scalar),
}

/// What a propagation is waiting for, and what it has settled so far.
#[derive(Clone, Copy, Debug, PartialEq)]
pub enum Stage {
    /// Waiting for the advanced mean anomaly.
    MeanAnomaly,
    /// Waiting for the seed of the hyperbolic iteration.
    Seed { mean_anomaly: Scalar },
    /// Waiting for a Newton step, after `completed` steps that did not
    /// converge.
    Newton { mean_anomaly: Scalar, completed: u32 },
    /// Waiting for the root of Barker's equation.
    Barker { mean_anomaly: Scalar },
    /// Waiting for the true anomaly.
    TrueAnomaly { mean_anomaly: Scalar, eccentric_anomaly: Scalar },
}

/// A propagation under way.
#[derive(Clone, Copy, Debug, PartialEq)]
pub struct Propagation {
    pub class: OrbitClass,
    /// The eccentricity that the orbit reports.
    pub eccentricity: Scalar,
    /// The time of the anomaly that is being computed.
    pub time_ms: u64,
    /// The mean anomaly that the propagation started from.
    pub start_mean_anomaly: Scalar,
    pub stage: Stage,
}

/// What `Progress` holds.
pub enum ProgressView {
    Pending { state: Propagation, request: Request },
    Done(AnomalyView),
    Failed(PropagationError),
}

/// Where a propagation stands after a call: waiting for arithmetic, finished,
/// or failed.
#[derive(Clone, Copy, Debug, PartialEq)]
pub enum Progress {
    /// Perform `request` and hand the reply, with `state`, to
    /// `AnomalySolver::resume`.
    Pending { state: Propagation, request: Request },
    Done(Anomaly),
    Failed(PropagationError),
}

impl View for Progress {
    type V = ProgressView;

    open spec fn view(&self) -> ProgressView {
        match *self {
            Progress::Pending { state, request } => ProgressView::Pending { state, request },
            Progress::Done(anomaly) => ProgressView::Done(anomaly@),
            Progress::Failed(error) => ProgressView::Failed(error),
        }
    }
}

/// `0 <= x < 2 * pi`, the canonical range of an angle on a bound orbit.
pub open spec fn within_turn(x: Scalar) -> bool {
    Scalar::zero().le(x) && x.lt(AnomalySolver::two_pi())
}

/// The mean anomalies that may come back: on a bound orbit those of the
/// canonical range, on an unbound orbit those not below the one started from.
pub open spec fn mean_anomaly_admissible(class: OrbitClass, start: Scalar, mean: Scalar) -> bool {
    if class.is_bound() {
        within_turn(mean)
    } else {
        start.le(mean)
    }
}

impl Propagation {
    /// What holds of every state that `start` and `resume` hand out: the
    /// stage is one that the class passes through, fewer than
    /// `MAX_ITERATIONS` steps are behind it, and the numbers it holds are
    /// finite and in range.
    pub open spec fn wf(self) -> bool {
        &&& self.eccentricity.is_finite()
        &&& self.start_mean_anomaly.is_finite()
        &&& match self.stage {
            Stage::MeanAnomaly => true,
            Stage::Seed { mean_anomaly } => {
                &&& self.class is Hyperbolic
                &&& self.settled(mean_anomaly)
            },
            Stage::Newton { mean_anomaly, completed } => {
                &&& self.class is Elliptical || self.class is Hyperbolic
                &&& self.settled(mean_anomaly)
                &&& completed < MAX_ITERATIONS
            },
            Stage::Barker { mean_anomaly } => {
                &&& self.class is Parabolic
                &&& self.settled(mean_anomaly)
            },
            Stage::TrueAnomaly { mean_anomaly, eccentric_anomaly } => {
                &&& !(self.class is Circular)
                &&& self.settled(mean_anomaly)
                &&& eccentric_anomaly.is_finite()
            },
        }
    }

    /// A mean anomaly that this propagation has accepted.
    pub open spec fn settled(self, mean_anomaly: Scalar) -> bool {
        &&& mean_anomaly.is_finite()
        &&& mean_anomaly_admissible(self.class, self.start_mean_anomaly, mean_anomaly)
    }

    /// An upper bound on the replies that this propagation can still take
    /// before it is done or has failed.
    pub open spec fn budget(self) -> nat {
        match self.stage {
            Stage::MeanAnomaly => (MAX_ITERATIONS + 3) as nat,
            Stage::Seed { .. } => (MAX_ITERATIONS + 2) as nat,
            Stage::Newton { completed, .. } => if completed < MAX_ITERATIONS {
                (MAX_ITERATIONS - completed + 1) as nat
            } else {
                2
            },
            Stage::Barker { .. } => 2,
            Stage::TrueAnomaly { .. } => 1,
        }
    }

    /// The same propagation at another stage.
    pub open spec fn at(self, stage: Stage) -> Propagation {
        Propagation { stage, ..self }
    }
}

/// The propagation engine. It holds no state: what a propagation has reached
/// travels in the `Propagation` that is handed back and forth.
pub struct AnomalySolver;

impl AnomalySolver {
    /// The binary64 number nearest to `1e-10`.
    pub open spec fn spec_tolerance() -> Scalar {
        Scalar { bits: TOLERANCE_BITS }
    }

    /// The binary64 number nearest to `2 * pi`.
    pub open spec fn spec_two_pi() -> Scalar {
        Scalar { bits: TWO_PI_BITS }
    }

    /// The binary64 number nearest to `1e-10`.
    #[verifier::when_used_as_spec(spec_tolerance)]
    pub fn tolerance() -> (t: Scalar)
        ensures
            t == Self::spec_tolerance(),
    {
        Scalar::from_bits(TOLERANCE_BITS)
    }

    /// The binary64 number nearest to `2 * pi`.
    #[verifier::when_used_as_spec(spec_two_pi)]
    pub fn two_pi() -> (t: Scalar)
        ensures
            t == Self::spec_two_pi(),
    {
        Scalar::from_bits(TWO_PI_BITS)
    }

    /// Where a propagation starts from: the anomaly handed in, or periapsis
    /// at time zero where there is none.
    pub open spec fn origin(anomaly: Option<AnomalyView>) -> AnomalyView {
        match anomaly {
            Some(a) => a,
            None => AnomalyView::at_periapsis(0),
        }
    }

    /// What `start` answers. A negative step is refused, then a time that
    /// would overflow; otherwise the propagation begins by asking for the
    /// mean anomaly at the new time. Without an anomaly to start from, the
    /// body starts at periapsis at time zero.
    pub open spec fn spec_start(
        body: BodyView,
        orbit: OrbitView,
        anomaly: Option<AnomalyView>,
        time_delta_ms: i64,
    ) -> ProgressView {
        let from = Self::origin(anomaly);
        if time_delta_ms < 0 {
            ProgressView::Failed(PropagationError::NegativeTimeDelta)
        } else if from.time_ms + time_delta_ms > u64::MAX {
            ProgressView::Failed(PropagationError::TimeOverflow)
        } else {
            ProgressView::Pending {
                state: Propagation {
                    class: orbit.class,
                    eccentricity: orbit.eccentricity(),
                    time_ms: (from.time_ms + time_delta_ms) as u64,
                    start_mean_anomaly: from.mean_anomaly,
                    stage: Stage::MeanAnomaly,
                },
                request: Request::AdvanceMeanAnomaly {
                    class: orbit.class,
                    mass: body.mass,
                    gravitational_constant: body.gravitational_constant,
                    semimajor_axis_or_periapsis: orbit.elements.semimajor_axis_or_periapsis,
                    mean_anomaly: from.mean_anomaly,
                    elapsed_ms: time_delta_ms as u64,
                },
            }
        }
    }

    /// What `resume` answers to a mean anomaly: the class decides how the
    /// equation is inverted. On a circle the three anomalies are one number
    /// and the propagation is done; the ellipse starts its Newton iteration
    /// at the mean anomaly itself; the parabola asks for the root of Barker's
    /// equation; the hyperbola asks for a seed first.
    pub open spec fn after_mean_anomaly(state: Propagation, mean: Scalar) -> ProgressView {
        if !mean.is_finite() {
            ProgressView::Failed(PropagationError::NotFinite)
        } else if !mean_anomaly_admissible(state.class, state.start_mean_anomaly, mean) {
            ProgressView::Failed(PropagationError::OutOfRange)
        } else {
            match state.class {
                OrbitClass::Circular => ProgressView::Done(
                    AnomalyView {
                        time_ms: state.time_ms,
                        true_anomaly: mean,
                        eccentric_anomaly: mean,
                        mean_anomaly: mean,
                    },
                ),
                OrbitClass::Elliptical => ProgressView::Pending {
                    state: state.at(Stage::Newton { mean_anomaly: mean, completed: 0 }),
                    request: Request::NewtonStep {
                        class: state.class,
                        eccentricity: state.eccentricity,
                        mean_anomaly: mean,
                        iterate: mean,
                    },
                },
                OrbitClass::Parabolic => ProgressView::Pending {
                    state: state.at(Stage::Barker { mean_anomaly: mean }),
                    request: Request::BarkerRoot { mean_anomaly: mean },
                },
                OrbitClass::Hyperbolic => ProgressView::Pending {
                    state: state.at(Stage::Seed { mean_anomaly: mean }),
                    request: Request::Seed { eccentricity: state.eccentricity, mean_anomaly: mean },
                },
            }
        }
    }

    /// What `resume` answers to a Newton step that followed `completed`
    /// others. A step shorter than the tolerance ends the iteration at the
    /// new iterate. A longer one is followed by another step, unless it was
    /// the last that the bound allows: then the iteration has failed, and
    /// the error carries the iterate and the residual.
    pub open spec fn after_newton_step(
        state: Propagation,
        mean_anomaly: Scalar,
        completed: u32,
        iterate: Scalar,
        correction: Scalar,
        residual: Scalar,
    ) -> ProgressView {
        if !(iterate.is_finite() && correction.is_finite() && residual.is_finite()) {
            ProgressView::Failed(PropagationError::NotFinite)
        } else if correction.abs().lt(Self::tolerance()) {
            ProgressView::Pending {
                state: state.at(Stage::TrueAnomaly { mean_anomaly, eccentric_anomaly: iterate }),
                request: Request::TrueAnomaly {
                    class: state.class,
                    eccentricity: state.eccentricity,
                    eccentric_anomaly: iterate,
                },
            }
        } else if completed + 1 >= MAX_ITERATIONS {
            ProgressView::Failed(
                PropagationError::DidNotConverge { last_iterate: iterate, residual },
            )
        } else {
            ProgressView::Pending {
                state: state.at(
                    Stage::Newton { mean_anomaly, completed: (completed + 1) as u32 },
                ),
                request: Request::NewtonStep {
                    class: state.class,
                    eccentricity: state.eccentricity,
                    mean_anomaly,
                    iterate,
                },
            }
        }
    }

    /// What `resume` answers to a true anomaly: the finished record, if the
    /// three anomalies are finite and the true anomaly of a bound orbit lies
    /// in `[0, 2 * pi)`.
    pub open spec fn after_true_anomaly(
        state: Propagation,
        mean_anomaly: Scalar,
        eccentric_anomaly: Scalar,
        true_anomaly: Scalar,
    ) -> ProgressView {
        if !(true_anomaly.is_finite() && eccentric_anomaly.is_finite()
            && mean_anomaly.is_finite()) {
            ProgressView::Failed(PropagationError::NotFinite)
        } else if state.class.is_bound() && !within_turn(true_anomaly) {
            ProgressView::Failed(PropagationError::OutOfRange)
        } else {
            ProgressView::Done(
                AnomalyView {
                    time_ms: state.time_ms,
                    true_anomaly,
                    eccentric_anomaly,
                    mean_anomaly,
                },
            )
        }
    }

    /// What `resume` answers: the reply must be the one that the stage waits
    /// for, and every number in it finite.
    pub open spec fn spec_resume(state: Propagation, reply: Reply) -> ProgressView {
        match state.stage {
            Stage::MeanAnomaly => match reply {
                Reply::MeanAnomaly(mean) => Self::after_mean_anomaly(state, mean),
                _ => ProgressView::Failed(PropagationError::UnexpectedReply),
            },
            Stage::Seed { mean_anomaly } => match reply {
                Reply::Seed(seed) => if seed.is_finite() {
                    ProgressView::Pending {
                        state: state.at(Stage::Newton { mean_anomaly, completed: 0 }),
                        request: Request::NewtonStep {
                            class: state.class,
                            eccentricity: state.eccentricity,
                            mean_anomaly,
                            iterate: seed,
                        },
                    }
                } else {
                    ProgressView::Failed(PropagationError::NotFinite)
                },
                _ => ProgressView::Failed(PropagationError::UnexpectedReply),
            },
            Stage::Newton { mean_anomaly, completed } => match reply {
                Reply::NewtonStep { iterate, correction, residual } => Self::after_newton_step(
                    state,
                    mean_anomaly,
                    completed,
                    iterate,
                    correction,
                    residual,
                ),
                _ => ProgressView::Failed(PropagationError::UnexpectedReply),
            },
            Stage::Barker { mean_anomaly } => match reply {
                Reply::BarkerRoot(root) => if root.is_finite() {
                    ProgressView::Pending {
                        state: state.at(
                            Stage::TrueAnomaly { mean_anomaly, eccentric_anomaly: root },
                        ),
                        request: Request::TrueAnomaly {
                    class: state.class,
                    eccentricity: state.eccentricity,
                    eccentric_anomaly: root,
                },
                    }
                } else {
                    ProgressView::Failed(PropagationError::NotFinite)
                },
                _ => ProgressView::Failed(PropagationError::UnexpectedReply),
            },
            Stage::TrueAnomaly { mean_anomaly, eccentric_anomaly } => match reply {
                Reply::TrueAnomaly(true_anomaly) => Self::after_true_anomaly(
                    state,
                    mean_anomaly,
                    eccentric_anomaly,
                    true_anomaly,
                ),
                _ => ProgressView::Failed(PropagationError::UnexpectedReply),
            },
        }
    }

    /// Where a propagation stands after the replies, taken in order. Replies
    /// that come after it is done or has failed are ignored.
    pub open spec fn run(progress: ProgressView, replies: Seq<Reply>) -> ProgressView
        decreases replies.len(),
    {
        match progress {
            ProgressView::Pending { state, .. } if replies.len() > 0 => Self::run(
                Self::spec_resume(state, replies[0]),
                replies.drop_first(),
            ),
            _ => progress,
        }
    }

    fn check_within_turn(x: Scalar) -> (r: bool)
        ensures
            r == within_turn(x),
    {
        Scalar::zero().le(x) && x.lt(Self::two_pi())
    }

    fn check_mean_anomaly(class: OrbitClass, start: Scalar, mean: Scalar) -> (r: bool)
        ensures
            r == mean_anomaly_admissible(class, start, mean),
    {
        if class.is_bound() {
            Self::check_within_turn(mean)
        } else {
            start.le(mean)
        }
    }

    /// Begins to advance the body on `orbit` by `time_delta_ms` milliseconds
    /// from `anomaly`, or from periapsis at time zero where there is none.
    pub fn start(
        body: &GravitatingBody,
        orbit: &Orbit,
        anomaly: Option<Anomaly>,
        time_delta_ms: i64,
    ) -> (r: Progress)
        ensures
            r@ == Self::spec_start(
                body@,
                orbit@,
                Anomaly::view_of(anomaly),
                time_delta_ms,
            ),
            !(r is Done),
            r matches Progress::Pending { state, request } ==> state.wf()
                && request.operands_finite(),
    {
        let elements = orbit.elements();
        proof {
            lemma_elements_finite(orbit@);
        }
        let from = match anomaly {
            Some(a) => a,
            None => Anomaly::at_periapsis(0),
        };
        if time_delta_ms < 0 {
            return Progress::Failed(PropagationError::NegativeTimeDelta);
        }
        let elapsed_ms: u64 = time_delta_ms as u64;
        let mean_anomaly = from.mean_anomaly();
        match from.time_ms().checked_add(elapsed_ms) {
            None => Progress::Failed(PropagationError::TimeOverflow),
            Some(time_ms) => Progress::Pending {
                state: Propagation {
                    class: orbit.class(),
                    eccentricity: orbit.eccentricity(),
                    time_ms,
                    start_mean_anomaly: mean_anomaly,
                    stage: Stage::MeanAnomaly,
                },
                request: Request::AdvanceMeanAnomaly {
                    class: orbit.class(),
                    mass: body.mass(),
                    gravitational_constant: body.gravitational_constant(),
                    semimajor_axis_or_periapsis: elements.semimajor_axis_or_periapsis,
                    mean_anomaly,
                    elapsed_ms,
                },
            },
        }
    }

    fn resume_mean_anomaly(state: Propagation, mean: Scalar) -> (r: Progress)
        ensures
            r@ == Self::after_mean_anomaly(state, mean),
    {
        if !mean.is_finite() {
            return Progress::Failed(PropagationError::NotFinite);
        }
        if !Self::check_mean_anomaly(state.class, state.start_mean_anomaly, mean) {
            return Progress::Failed(PropagationError::OutOfRange);
        }
        match state.class {
            OrbitClass::Circular => match Anomaly::new(state.time_ms, mean, mean, mean) {
                Some(anomaly) => Progress::Done(anomaly),
                None => Progress::Failed(PropagationError::NotFinite),
            },
            OrbitClass::Elliptical => Progress::Pending {
                state: Propagation {
                    stage: Stage::Newton { mean_anomaly: mean, completed: 0 },
                    ..state
                },
                request: Request::NewtonStep {
                        class: state.class,
                        eccentricity: state.eccentricity,
                        mean_anomaly: mean,
                        iterate: mean,
                    },
            },
            OrbitClass::Parabolic => Progress::Pending {
                state: Propagation { stage: Stage::Barker { mean_anomaly: mean }, ..state },
                request: Request::BarkerRoot { mean_anomaly: mean },
            },
            OrbitClass::Hyperbolic => Progress::Pending {
                state: Propagation { stage: Stage::Seed { mean_anomaly: mean }, ..state },
                request: Request::Seed { eccentricity: state.eccentricity, mean_anomaly: mean },
            },
        }
    }

    fn resume_newton_step(
        state: Propagation,
        mean_anomaly: Scalar,
        completed: u32,
        iterate: Scalar,
        correction: Scalar,
        residual: Scalar,
    ) -> (r: Progress)
        ensures
            r@ == Self::after_newton_step(
                state,
                mean_anomaly,
                completed,
                iterate,
                correction,
                residual,
            ),
    {
        if !(iterate.is_finite() && correction.is_finite() && residual.is_finite()) {
            Progress::Failed(PropagationError::NotFinite)
        } else if correction.abs().lt(Self::tolerance()) {
            Progress::Pending {
                state: Propagation {
                    stage: Stage::TrueAnomaly { mean_anomaly, eccentric_anomaly: iterate },
                    ..state
                },
                request: Request::TrueAnomaly {
                    class: state.class,
                    eccentricity: state.eccentricity,
                    eccentric_anomaly: iterate,
                },
            }
        } else if completed >= MAX_ITERATIONS - 1 {
            Progress::Failed(PropagationError::DidNotConverge { last_iterate: iterate, residual })
        } else {
            Progress::Pending {
                state: Propagation {
                    stage: Stage::Newton { mean_anomaly, completed: completed + 1 },
                    ..state
                },
                request: Request::NewtonStep {
                    class: state.class,
                    eccentricity: state.eccentricity,
                    mean_anomaly,
                    iterate,
                },
            }
        }
    }

    fn resume_true_anomaly(
        state: Propagation,
        mean_anomaly: Scalar,
        eccentric_anomaly: Scalar,
        true_anomaly: Scalar,
    ) -> (r: Progress)
        ensures
            r@ == Self::after_true_anomaly(state, mean_anomaly, eccentric_anomaly, true_anomaly),
    {
        match Anomaly::new(state.time_ms, true_anomaly, eccentric_anomaly, mean_anomaly) {
            None => Progress::Failed(PropagationError::NotFinite),
            Some(anomaly) => if state.class.is_bound() && !Self::check_within_turn(true_anomaly) {
                Progress::Failed(PropagationError::OutOfRange)
            } else {
                Progress::Done(anomaly)
            },
        }
    }

    /// Takes the reply to the request that was pending with `state`, and
    /// answers with the next request, the finished anomaly, or the error.
    pub fn resume(state: Propagation, reply: Reply) -> (r: Progress)
        ensures
            r@ == Self::spec_resume(state, reply),
    {
        match state.stage {
            Stage::MeanAnomaly => match reply {
                Reply::MeanAnomaly(mean) => Self::resume_mean_anomaly(state, mean),
                _ => Progress::Failed(PropagationError::UnexpectedReply),
            },
            Stage::Seed { mean_anomaly } => match reply {
                Reply::Seed(seed) => if seed.is_finite() {
                    Progress::Pending {
                        state: Propagation {
                            stage: Stage::Newton { mean_anomaly, completed: 0 },
                            ..state
                        },
                        request: Request::NewtonStep {
                            class: state.class,
                            eccentricity: state.eccentricity,
                            mean_anomaly,
                            iterate: seed,
                        },
                    }
                } else {
                    Progress::Failed(PropagationError::NotFinite)
                },
                _ => Progress::Failed(PropagationError::UnexpectedReply),
            },
            Stage::Newton { mean_anomaly, completed } => match reply {
                Reply::NewtonStep { iterate, correction, residual } => Self::resume_newton_step(
                    state,
                    mean_anomaly,
                    completed,
                    iterate,
                    correction,
                    residual,
                ),
                _ => Progress::Failed(PropagationError::UnexpectedReply),
            },
            Stage::Barker { mean_anomaly } => match reply {
                Reply::BarkerRoot(root) => if root.is_finite() {
                    Progress::Pending {
                        state: Propagation {
                            stage: Stage::TrueAnomaly { mean_anomaly, eccentric_anomaly: root },
                            ..state
                        },
                        request: Request::TrueAnomaly {
                    class: state.class,
                    eccentricity: state.eccentricity,
                    eccentric_anomaly: root,
                },
                    }
                } else {
                    Progress::Failed(PropagationError::NotFinite)
                },
                _ => Progress::Failed(PropagationError::UnexpectedReply),
            },
            Stage::TrueAnomaly { mean_anomaly, eccentric_anomaly } => match reply {
                Reply::TrueAnomaly(true_anomaly) => Self::resume_true_anomaly(
                    state,
                    mean_anomaly,
                    eccentric_anomaly,
                    true_anomaly,
                ),
                _ => Progress::Failed(PropagationError::UnexpectedReply),
            },
        }
    }

    /// Where `advance` stands between two replies.
    pub open spec fn on_course(
        class: OrbitClass,
        from: AnomalyView,
        time_delta_ms: i64,
        progress: ProgressView,
    ) -> bool {
        match progress {
            ProgressView::Pending { state, .. } => {
                &&& time_delta_ms >= 0
                &&& state.wf()
                &&& state.class == class
                &&& state.time_ms == from.time_ms + time_delta_ms
                &&& state.start_mean_anomaly == from.mean_anomaly
            },
            ProgressView::Done(end) => arrives(class, from, time_delta_ms, end),
            ProgressView::Failed(error) => {
                &&& error is NegativeTimeDelta <==> time_delta_ms < 0
                &&& error is TimeOverflow <==> time_delta_ms >= 0 && from.time_ms + time_delta_ms
                    > u64::MAX
            },
        }
    }

    /// Advances the body on `orbit` by `time_delta_ms` milliseconds from
    /// `anomaly`, or from periapsis at time zero where there is none, with
    /// the arithmetic done by `arithmetic`.
    ///
    /// A negative step and a time that does not fit are refused before
    /// anything is computed. After that the outcome depends on the replies:
    /// it is where `run` ends on the replies that the arithmetic gave, which
    /// are `MAX_ITERATIONS + 3` at most, and an anomaly that is returned is
    /// the one promised by `arrives`.
    pub fn advance<A: Arithmetic>(
        arithmetic: &A,
        body: &GravitatingBody,
        orbit: &Orbit,
        anomaly: Option<Anomaly>,
        time_delta_ms: i64,
    ) -> (r: Result<Anomaly, PropagationError>)
        ensures
            time_delta_ms < 0 <==> r == Err::<Anomaly, PropagationError>(
                PropagationError::NegativeTimeDelta,
            ),
            time_delta_ms >= 0 && Self::origin(
                Anomaly::view_of(anomaly),
            ).time_ms + time_delta_ms > u64::MAX <==> r == Err::<Anomaly, PropagationError>(
                PropagationError::TimeOverflow,
            ),
            r matches Ok(end) ==> arrives(
                orbit@.class,
                Self::origin(
                    Anomaly::view_of(anomaly),
                ),
                time_delta_ms,
                end@,
            ),
            exists|replies: Seq<Reply>|
                replies.len() <= MAX_ITERATIONS + 3 && (#[trigger] Self::run(
                    Self::spec_start(
                        body@,
                        orbit@,
                        Anomaly::view_of(anomaly),
                        time_delta_ms,
                    ),
                    replies,
                )).ended() == Some(
                    match r {
                        Ok(end) => Ok::<AnomalyView, PropagationError>(end@),
                        Err(error) => Err(error),
                    },
                ),
    {
        let ghost first = Self::spec_start(
            body@,
            orbit@,
            Anomaly::view_of(anomaly),
            time_delta_ms,
        );
        let ghost mut taken: Seq<Reply> = Seq::empty();
        let ghost from = Self::origin(
            Anomaly::view_of(anomaly),
        );
        let ghost class = orbit@.class;
        let mut progress = Self::start(body, orbit, anomaly, time_delta_ms);
        loop
            invariant
                class == orbit@.class,
                from == Self::origin(
                    Anomaly::view_of(anomaly),
                ),
                Self::on_course(class, from, time_delta_ms, progress@),
                first == Self::spec_start(
                    body@,
                    orbit@,
                    Anomaly::view_of(anomaly),
                    time_delta_ms,
                ),
                Self::run(first, taken) == progress@,
                taken.len() + progress@.remaining() <= MAX_ITERATIONS + 3,
            decreases progress@.remaining(),
        {
            match progress {
                Progress::Pending { state, request } => {
                    let reply = arithmetic.answer(request);
                    proof {
                        lemma_resume_spends_budget(state, reply);
                        lemma_resume_keeps_promise(state, reply);
                        lemma_run_one_more(first, taken, reply);
                        taken = taken.push(reply);
                    }
                    progress = Self::resume(state, reply);
                },
                Progress::Done(end) => {
                    return Ok(end);
                },
                Progress::Failed(error) => {
                    return Err(error);
                },
            }
        }
    }
}

impl ProgressView {
    /// How the propagation has ended, if it has.
    pub open spec fn ended(self) -> Option<Result<AnomalyView, PropagationError>> {
        match self {
            ProgressView::Pending { .. } => None,
            ProgressView::Done(anomaly) => Some(Ok(anomaly)),
            ProgressView::Failed(error) => Some(Err(error)),
        }
    }

    /// An upper bound on the replies that can still be taken: the budget of
    /// a pending propagation, none once it is done or has failed.
    pub open spec fn remaining(self) -> nat {
        match self {
            ProgressView::Pending { state, .. } => state.budget(),
            _ => 0,
        }
    }
}

/// One more reply to a propagation that is still pending after the others
/// takes it where `resume` takes its state.
pub proof fn lemma_run_one_more(progress: ProgressView, replies: Seq<Reply>, reply: Reply)
    requires
        AnomalySolver::run(progress, replies) is Pending,
    ensures
        AnomalySolver::run(progress, replies.push(reply)) == AnomalySolver::spec_resume(
            AnomalySolver::run(progress, replies)->state,
            reply,
        ),
    decreases replies.len(),
{
    let longer = replies.push(reply);
    match progress {
        ProgressView::Pending { state, .. } => {
            if replies.len() == 0 {
                assert(longer.drop_first() =~= Seq::<Reply>::empty());
                assert(AnomalySolver::run(
                    AnomalySolver::spec_resume(state, reply),
                    longer.drop_first(),
                ) == AnomalySolver::spec_resume(state, reply));
            } else {
                assert(longer.drop_first() =~= replies.drop_first().push(reply));
                lemma_run_one_more(
                    AnomalySolver::spec_resume(state, replies[0]),
                    replies.drop_first(),
                    reply,
                );
            }
        },
        _ => {},
    }
}

/// Every reply that leaves a propagation pending lowers its budget: the
/// machine cannot be kept going forever.
pub proof fn lemma_resume_spends_budget(state: Propagation, reply: Reply)
    ensures
        AnomalySolver::spec_resume(state, reply) matches ProgressView::Pending { state: next, .. }
            ==> next.budget() < state.budget(),
{
}

/// A propagation that is handed as many replies as its budget is no longer
/// pending, whatever the replies are.
pub proof fn lemma_run_ends(progress: ProgressView, replies: Seq<Reply>)
    requires
        progress matches ProgressView::Pending { state, .. } ==> replies.len() >= state.budget(),
    ensures
        !(AnomalySolver::run(progress, replies) is Pending),
    decreases replies.len(),
{
    match progress {
        ProgressView::Pending { state, .. } => {
            assert(replies.len() > 0);
            lemma_resume_spends_budget(state, replies[0]);
            lemma_run_ends(AnomalySolver::spec_resume(state, replies[0]), replies.drop_first());
        },
        _ => {},
    }
}

/// No propagation hangs: after `MAX_ITERATIONS + 3` replies at the latest it
/// is done or has failed, on every class of orbit and whatever comes back from
/// the arithmetic.
pub proof fn lemma_propagation_ends(
    body: BodyView,
    orbit: OrbitView,
    anomaly: Option<AnomalyView>,
    time_delta_ms: i64,
    replies: Seq<Reply>,
)
    requires
        replies.len() >= MAX_ITERATIONS + 3,
    ensures
        !(AnomalySolver::run(AnomalySolver::spec_start(body, orbit, anomaly, time_delta_ms), replies)
            is Pending),
{
    lemma_run_ends(AnomalySolver::spec_start(body, orbit, anomaly, time_delta_ms), replies);
}

/// What a propagation promises of the anomaly it ends with: the record is
/// well formed and bears the propagation's time; its mean anomaly is one that
/// the propagation admits, so on an unbound orbit it is not below the one
/// started from; on a bound orbit the mean and the true anomaly lie in
/// `[0, 2 * pi)`; on a circle the three anomalies are one number.
pub open spec fn fulfils(state: Propagation, anomaly: AnomalyView) -> bool {
    &&& anomaly.wf()
    &&& anomaly.time_ms == state.time_ms
    &&& mean_anomaly_admissible(state.class, state.start_mean_anomaly, anomaly.mean_anomaly)
    &&& state.class.is_bound() ==> within_turn(anomaly.true_anomaly)
    &&& state.class is Circular ==> anomaly.true_anomaly == anomaly.mean_anomaly
        && anomaly.eccentric_anomaly == anomaly.mean_anomaly
}

/// One reply keeps a well-formed propagation well formed and on its class,
/// time and starting point; the next request holds finite numbers only; and
/// where the reply finishes the propagation, the anomaly is what the
/// propagation promises.
pub proof fn lemma_resume_keeps_promise(state: Propagation, reply: Reply)
    requires
        state.wf(),
    ensures
        match AnomalySolver::spec_resume(state, reply) {
            ProgressView::Pending { state: next, request } => {
                &&& next.wf()
                &&& request.operands_finite()
                &&& next.class == state.class
                &&& next.time_ms == state.time_ms
                &&& next.start_mean_anomaly == state.start_mean_anomaly
            },
            ProgressView::Done(anomaly) => fulfils(state, anomaly),
            ProgressView::Failed(_) => true,
        },
{
}

/// Any number of replies keeps the promise of a well-formed propagation.
pub proof fn lemma_run_keeps_promise(state: Propagation, request: Request, replies: Seq<Reply>)
    requires
        state.wf(),
    ensures
        AnomalySolver::run(ProgressView::Pending { state, request }, replies) matches ProgressView::Done(
            anomaly,
        ) ==> fulfils(state, anomaly),
    decreases replies.len(),
{
    if replies.len() > 0 {
        lemma_resume_keeps_promise(state, replies[0]);
        match AnomalySolver::spec_resume(state, replies[0]) {
            ProgressView::Pending { state: next, request: next_request } => {
                lemma_run_keeps_promise(next, next_request, replies.drop_first());
            },
            _ => {
                assert(AnomalySolver::run(
                    AnomalySolver::spec_resume(state, replies[0]),
                    replies.drop_first(),
                ) == AnomalySolver::spec_resume(state, replies[0]));
            },
        }
    }
}

/// What a propagation by `time_delta_ms` from `from` promises of the anomaly
/// `end` that it arrives at: the record is well formed; its time is the
/// starting time plus the step, which was not negative; on a bound orbit its
/// mean and true anomaly lie in `[0, 2 * pi)`; on an unbound orbit its mean
/// anomaly is not below the one started from; on a circle the three anomalies
/// are one number.
pub open spec fn arrives(
    class: OrbitClass,
    from: AnomalyView,
    time_delta_ms: i64,
    end: AnomalyView,
) -> bool {
    &&& end.wf()
    &&& time_delta_ms >= 0
    &&& end.time_ms == from.time_ms + time_delta_ms
    &&& class.is_bound() ==> within_turn(end.mean_anomaly) && within_turn(end.true_anomaly)
    &&& !class.is_bound() ==> from.mean_anomaly.le(end.mean_anomaly)
    &&& class is Circular ==> end.true_anomaly == end.mean_anomaly && end.eccentric_anomaly
        == end.mean_anomaly
}

/// The anomaly at the end of a propagation is the one promised, whatever the
/// arithmetic replied on the way.
pub proof fn lemma_propagation_result(
    body: BodyView,
    orbit: OrbitView,
    anomaly: Option<AnomalyView>,
    time_delta_ms: i64,
    replies: Seq<Reply>,
)
    requires
        orbit.wf(),
        anomaly matches Some(a) ==> a.wf(),
    ensures
        AnomalySolver::run(AnomalySolver::spec_start(body, orbit, anomaly, time_delta_ms), replies) matches ProgressView::Done(
            end,
        ) ==> arrives(orbit.class, AnomalySolver::origin(anomaly), time_delta_ms, end),
{
    lemma_elements_finite(orbit);
    match AnomalySolver::spec_start(body, orbit, anomaly, time_delta_ms) {
        ProgressView::Pending { state, request } => {
            lemma_run_keeps_promise(state, request, replies);
        },
        _ => {},
    }
}

/// Along a sequence of propagations on one orbit, each starting where the
/// last one arrived, the times add up, and on an unbound orbit the mean
/// anomaly never falls: what holds of one propagation holds of the two
/// together.
pub proof fn lemma_successive_propagations(
    class: OrbitClass,
    from: AnomalyView,
    first_delta_ms: i64,
    between: AnomalyView,
    second_delta_ms: i64,
    end: AnomalyView,
)
    requires
        arrives(class, from, first_delta_ms, between),
        arrives(class, between, second_delta_ms, end),
    ensures
        end.time_ms == from.time_ms + first_delta_ms + second_delta_ms,
        from.time_ms <= between.time_ms <= end.time_ms,
        !class.is_bound() ==> from.mean_anomaly.le(between.mean_anomaly)
            && between.mean_anomaly.le(end.mean_anomaly) && from.mean_anomaly.le(
            end.mean_anomaly,
        ),
        class.is_bound() ==> within_turn(between.mean_anomaly) && within_turn(end.mean_anomaly),
{
}

impl Propagation {
    /// The mean anomaly that the propagation has accepted, once it has one.
    pub open spec fn accepted_mean_anomaly(self) -> Option<Scalar> {
        match self.stage {
            Stage::MeanAnomaly => None,
            Stage::Seed { mean_anomaly } => Some(mean_anomaly),
            Stage::Newton { mean_anomaly, .. } => Some(mean_anomaly),
            Stage::Barker { mean_anomaly } => Some(mean_anomaly),
            Stage::TrueAnomaly { mean_anomaly, .. } => Some(mean_anomaly),
        }
    }
}

/// Once a mean anomaly is accepted, no reply changes it, and it is the mean
/// anomaly of the record that the propagation ends with.
pub proof fn lemma_run_keeps_mean_anomaly(
    state: Propagation,
    request: Request,
    replies: Seq<Reply>,
    mean: Scalar,
)
    requires
        state.accepted_mean_anomaly() == Some(mean),
    ensures
        AnomalySolver::run(ProgressView::Pending { state, request }, replies) matches ProgressView::Done(
            end,
        ) ==> end.mean_anomaly == mean,
    decreases replies.len(),
{
    if replies.len() > 0 {
        match AnomalySolver::spec_resume(state, replies[0]) {
            ProgressView::Pending { state: next, request: next_request } => {
                lemma_run_keeps_mean_anomaly(next, next_request, replies.drop_first(), mean);
            },
            _ => {
                assert(AnomalySolver::run(
                    AnomalySolver::spec_resume(state, replies[0]),
                    replies.drop_first(),
                ) == AnomalySolver::spec_resume(state, replies[0]));
            },
        }
    }
}

/// The mean anomaly of the record at the end of a propagation is the one
/// that the arithmetic gave in its first reply, to the request to advance the
/// starting mean anomaly by the elapsed time. How the mean anomaly grows with
/// the time step is therefore how that one answer grows with it.
pub proof fn lemma_mean_anomaly_is_the_first_reply(
    body: BodyView,
    orbit: OrbitView,
    anomaly: Option<AnomalyView>,
    time_delta_ms: i64,
    replies: Seq<Reply>,
)
    ensures
        AnomalySolver::run(AnomalySolver::spec_start(body, orbit, anomaly, time_delta_ms), replies) matches ProgressView::Done(
            end,
        ) ==> {
            &&& replies.len() > 0
            &&& replies[0] == Reply::MeanAnomaly(end.mean_anomaly)
            &&& AnomalySolver::spec_start(body, orbit, anomaly, time_delta_ms) matches ProgressView::Pending {
                request,
                ..
            }
            &&& request == (Request::AdvanceMeanAnomaly {
                class: orbit.class,
                mass: body.mass,
                gravitational_constant: body.gravitational_constant,
                semimajor_axis_or_periapsis: orbit.elements.semimajor_axis_or_periapsis,
                mean_anomaly: AnomalySolver::origin(anomaly).mean_anomaly,
                elapsed_ms: time_delta_ms as u64,
            })
        },
{
    match AnomalySolver::spec_start(body, orbit, anomaly, time_delta_ms) {
        ProgressView::Pending { state, request } => {
            if replies.len() > 0 {
                match AnomalySolver::spec_resume(state, replies[0]) {
                    ProgressView::Pending { state: next, request: next_request } => {
                        let mean = next.accepted_mean_anomaly()->0;
                        lemma_run_keeps_mean_anomaly(
                            next,
                            next_request,
                            replies.drop_first(),
                            mean,
                        );
                    },
                    _ => {
                        assert(AnomalySolver::run(
                            AnomalySolver::spec_resume(state, replies[0]),
                            replies.drop_first(),
                        ) == AnomalySolver::spec_resume(state, replies[0]));
                    },
                }
            }
        },
        _ => {},
    }
}

/// A Newton step that ends the iteration in failure: it comes back with
/// finite numbers, is not shorter than the tolerance, and is the last that the
/// bound allows.
pub open spec fn gives_up(state: Propagation, reply: Reply) -> bool {
    &&& state.stage matches Stage::Newton { completed, .. }
    &&& reply matches Reply::NewtonStep { iterate, correction, residual }
    &&& iterate.is_finite() && correction.is_finite() && residual.is_finite()
    &&& !correction.abs().lt(AnomalySolver::tolerance())
    &&& completed + 1 >= MAX_ITERATIONS
}

/// The iteration is given up on exactly the steps that `gives_up` describes,
/// and the error then carries the iterate and the residual of that step. In a
/// well-formed propagation it is the step numbered `MAX_ITERATIONS`.
pub proof fn lemma_did_not_converge(state: Propagation, reply: Reply)
    ensures
        gives_up(state, reply) <==> (match AnomalySolver::spec_resume(state, reply) {
            ProgressView::Failed(PropagationError::DidNotConverge { .. }) => true,
            _ => false,
        }),
        gives_up(state, reply) ==> (match reply {
            Reply::NewtonStep { iterate, residual, .. } => AnomalySolver::spec_resume(state, reply)
                == ProgressView::Failed(
                PropagationError::DidNotConverge { last_iterate: iterate, residual },
            ),
            _ => false,
        }),
        state.wf() && gives_up(state, reply) ==> (match state.stage {
            Stage::Newton { completed, .. } => completed + 1 == MAX_ITERATIONS,
            _ => false,
        }),
{
}

} // verus!
