use kepler_orbit::anomaly::Anomaly;
use kepler_orbit::body::GravitatingBody;
use kepler_orbit::orbit::{Orbit, OrbitClass, OrbitElements};
use kepler_orbit::scalar::Scalar;
use kepler_orbit::solver::{
    AnomalySolver, Progress, Propagation, PropagationError, Reply, Request, Stage, MAX_ITERATIONS,
    TOLERANCE_BITS, TWO_PI_BITS,
};

fn s(x: f64) -> Scalar {
    Scalar::from_bits(x.to_bits())
}

fn f(x: Scalar) -> f64 {
    f64::from_bits(x.to_bits())
}

const MASS: f64 = 5.972e24;
const G: f64 = 6.67408e-11;

fn body() -> GravitatingBody {
    GravitatingBody::new(s(MASS), s(6.371e6), s(G)).unwrap()
}

fn newton_request(class: OrbitClass, e: f64, mean: f64, iterate: f64) -> Request {
    Request::NewtonStep {
        class,
        eccentricity: s(e),
        mean_anomaly: s(mean),
        iterate: s(iterate),
    }
}

fn mean_request(class: OrbitClass, distance: f64, mean: f64, elapsed_ms: u64) -> Request {
    Request::AdvanceMeanAnomaly {
        class,
        mass: s(MASS),
        gravitational_constant: s(G),
        semimajor_axis_or_periapsis: s(distance),
        mean_anomaly: s(mean),
        elapsed_ms,
    }
}

fn true_request(class: OrbitClass, e: f64, eccentric: f64) -> Request {
    Request::TrueAnomaly { class, eccentricity: s(e), eccentric_anomaly: s(eccentric) }
}

fn orbit(class: OrbitClass) -> Orbit {
    let (distance, eccentricity) = match class {
        OrbitClass::Circular => (7.0e6, 0.0),
        OrbitClass::Elliptical => (7.0e6, 0.1),
        OrbitClass::Parabolic => (7.0e6, 1.0),
        OrbitClass::Hyperbolic => (-7.0e6, 1.5),
    };
    let elements = OrbitElements {
        semimajor_axis_or_periapsis: s(distance),
        eccentricity: s(eccentricity),
        inclination: s(0.0),
        ascending_node: s(0.0),
        angle_of_periapsis: s(0.0),
    };
    Orbit::new(class, elements).unwrap()
}

fn pending(progress: Progress) -> (Propagation, Request) {
    match progress {
        Progress::Pending { state, request } => (state, request),
        other => panic!("expected a pending propagation, got {other:?}"),
    }
}

fn after_mean(class: OrbitClass, mean: f64) -> Progress {
    let (state, _) = pending(AnomalySolver::start(&body(), &orbit(class), None, 1000));
    AnomalySolver::resume(state, Reply::MeanAnomaly(s(mean)))
}

fn step(iterate: f64, correction: f64, residual: f64) -> Reply {
    Reply::NewtonStep { iterate: s(iterate), correction: s(correction), residual: s(residual) }
}

#[test]
fn constants_are_the_patterns_of_their_numbers() {
    assert_eq!(TOLERANCE_BITS, 1e-10f64.to_bits());
    assert_eq!(TWO_PI_BITS, (2.0 * std::f64::consts::PI).to_bits());
    assert_eq!(f(AnomalySolver::tolerance()), 1e-10);
    assert_eq!(f(AnomalySolver::two_pi()), 2.0 * std::f64::consts::PI);
    assert_eq!(MAX_ITERATIONS, 50);
}

#[test]
fn negative_time_step_is_refused() {
    for class in [
        OrbitClass::Circular,
        OrbitClass::Elliptical,
        OrbitClass::Parabolic,
        OrbitClass::Hyperbolic,
    ] {
        assert_eq!(
            AnomalySolver::start(&body(), &orbit(class), None, -1),
            Progress::Failed(PropagationError::NegativeTimeDelta)
        );
    }
    assert_eq!(
        AnomalySolver::start(&body(), &orbit(OrbitClass::Elliptical), None, i64::MIN),
        Progress::Failed(PropagationError::NegativeTimeDelta)
    );
}

#[test]
fn time_that_does_not_fit_is_refused() {
    let late = Anomaly::at_periapsis(u64::MAX - 5);
    let o = orbit(OrbitClass::Elliptical);
    assert_eq!(
        AnomalySolver::start(&body(), &o, Some(late), 6),
        Progress::Failed(PropagationError::TimeOverflow)
    );
    let (state, _) = pending(AnomalySolver::start(&body(), &o, Some(late), 5));
    assert_eq!(state.time_ms, u64::MAX);
}

#[test]
fn start_asks_for_the_mean_anomaly_at_the_new_time() {
    let from = Anomaly::new(2_000, s(0.5), s(0.45), s(0.4)).unwrap();
    let (state, request) =
        pending(AnomalySolver::start(&body(), &orbit(OrbitClass::Elliptical), Some(from), 3_000));
    assert_eq!(state.class, OrbitClass::Elliptical);
    assert_eq!(state.time_ms, 5_000);
    assert_eq!(state.stage, Stage::MeanAnomaly);
    assert_eq!(f(state.start_mean_anomaly), 0.4);
    assert_eq!(request, mean_request(OrbitClass::Elliptical, 7.0e6, 0.4, 3_000));
    assert_eq!(f(state.eccentricity), 0.1);
}

#[test]
fn without_an_anomaly_the_body_starts_at_periapsis_at_time_zero() {
    let (state, request) = pending(AnomalySolver::start(&body(), &orbit(OrbitClass::Parabolic), None, 250));
    assert_eq!(state.time_ms, 250);
    assert_eq!(request, mean_request(OrbitClass::Parabolic, 7.0e6, 0.0, 250));
    assert_eq!(f(state.eccentricity), 1.0);
    let zero_step = pending(AnomalySolver::start(&body(), &orbit(OrbitClass::Parabolic), None, 0));
    assert_eq!(zero_step.0.time_ms, 0);
}

#[test]
fn circular_orbit_is_done_with_the_mean_anomaly() {
    match after_mean(OrbitClass::Circular, 1.25) {
        Progress::Done(a) => {
            assert_eq!(a.time_ms(), 1000);
            assert_eq!(f(a.mean_anomaly()), 1.25);
            assert_eq!(f(a.eccentric_anomaly()), 1.25);
            assert_eq!(f(a.true_anomaly()), 1.25);
        }
        other => panic!("expected a finished anomaly, got {other:?}"),
    }
}

#[test]
fn each_class_takes_its_own_way_after_the_mean_anomaly() {
    let (state, request) = pending(after_mean(OrbitClass::Elliptical, 1.25));
    assert_eq!(state.stage, Stage::Newton { mean_anomaly: s(1.25), completed: 0 });
    assert_eq!(request, newton_request(OrbitClass::Elliptical, 0.1, 1.25, 1.25));

    let (state, request) = pending(after_mean(OrbitClass::Parabolic, 1.25));
    assert_eq!(state.stage, Stage::Barker { mean_anomaly: s(1.25) });
    assert_eq!(request, Request::BarkerRoot { mean_anomaly: s(1.25) });

    let (state, request) = pending(after_mean(OrbitClass::Hyperbolic, 1.25));
    assert_eq!(state.stage, Stage::Seed { mean_anomaly: s(1.25) });
    assert_eq!(request, Request::Seed { eccentricity: s(1.5), mean_anomaly: s(1.25) });
    let (state, request) = pending(AnomalySolver::resume(state, Reply::Seed(s(0.9))));
    assert_eq!(state.stage, Stage::Newton { mean_anomaly: s(1.25), completed: 0 });
    assert_eq!(request, newton_request(OrbitClass::Hyperbolic, 1.5, 1.25, 0.9));
}

#[test]
fn mean_anomaly_of_a_bound_orbit_must_lie_within_one_turn() {
    let two_pi = 2.0 * std::f64::consts::PI;
    for class in [OrbitClass::Circular, OrbitClass::Elliptical] {
        assert!(!matches!(after_mean(class, 0.0), Progress::Failed(_)));
        assert!(!matches!(after_mean(class, -0.0), Progress::Failed(_)));
        assert!(!matches!(after_mean(class, 6.283185307179585), Progress::Failed(_)));
        for bad in [two_pi, 7.0, -1e-300, -1.0] {
            assert_eq!(
                after_mean(class, bad),
                Progress::Failed(PropagationError::OutOfRange),
                "mean anomaly {bad:e}"
            );
        }
    }
}

#[test]
fn mean_anomaly_of_an_unbound_orbit_must_not_fall_back() {
    let from = Anomaly::new(0, s(0.3), s(0.2), s(2.0)).unwrap();
    for class in [OrbitClass::Parabolic, OrbitClass::Hyperbolic] {
        let (state, _) = pending(AnomalySolver::start(&body(), &orbit(class), Some(from), 10));
        assert_eq!(
            AnomalySolver::resume(state, Reply::MeanAnomaly(s(1.9999999))),
            Progress::Failed(PropagationError::OutOfRange)
        );
        assert!(matches!(
            AnomalySolver::resume(state, Reply::MeanAnomaly(s(2.0))),
            Progress::Pending { .. }
        ));
        assert!(matches!(
            AnomalySolver::resume(state, Reply::MeanAnomaly(s(950.0))),
            Progress::Pending { .. }
        ));
    }
}

#[test]
fn numbers_that_are_not_finite_end_the_propagation() {
    for bad in [f64::NAN, f64::INFINITY, f64::NEG_INFINITY] {
        for class in [
            OrbitClass::Circular,
            OrbitClass::Elliptical,
            OrbitClass::Parabolic,
            OrbitClass::Hyperbolic,
        ] {
            assert_eq!(after_mean(class, bad), Progress::Failed(PropagationError::NotFinite));
        }
        let (seed, _) = pending(after_mean(OrbitClass::Hyperbolic, 1.0));
        assert_eq!(
            AnomalySolver::resume(seed, Reply::Seed(s(bad))),
            Progress::Failed(PropagationError::NotFinite)
        );
        let (barker, _) = pending(after_mean(OrbitClass::Parabolic, 1.0));
        assert_eq!(
            AnomalySolver::resume(barker, Reply::BarkerRoot(s(bad))),
            Progress::Failed(PropagationError::NotFinite)
        );
        let (newton, _) = pending(after_mean(OrbitClass::Elliptical, 1.0));
        for reply in [step(bad, 0.0, 0.0), step(1.0, bad, 0.0), step(1.0, 0.0, bad)] {
            assert_eq!(
                AnomalySolver::resume(newton, reply),
                Progress::Failed(PropagationError::NotFinite)
            );
        }
        let (last, _) = pending(AnomalySolver::resume(newton, step(1.1, 0.0, 0.0)));
        assert_eq!(
            AnomalySolver::resume(last, Reply::TrueAnomaly(s(bad))),
            Progress::Failed(PropagationError::NotFinite)
        );
    }
}

#[test]
fn reply_of_the_wrong_kind_is_refused() {
    let (mean, _) = pending(AnomalySolver::start(&body(), &orbit(OrbitClass::Elliptical), None, 1));
    let (newton, _) = pending(after_mean(OrbitClass::Elliptical, 1.0));
    let (seed, _) = pending(after_mean(OrbitClass::Hyperbolic, 1.0));
    let (barker, _) = pending(after_mean(OrbitClass::Parabolic, 1.0));
    let (last, _) = pending(AnomalySolver::resume(barker, Reply::BarkerRoot(s(0.5))));
    let replies = [
        Reply::MeanAnomaly(s(1.0)),
        Reply::Seed(s(1.0)),
        step(1.0, 0.0, 0.0),
        Reply::BarkerRoot(s(1.0)),
        Reply::TrueAnomaly(s(1.0)),
    ];
    let states = [mean, seed, newton, barker, last];
    for (i, state) in states.iter().enumerate() {
        for (j, reply) in replies.iter().enumerate() {
            let answer = AnomalySolver::resume(*state, *reply);
            let refused = answer == Progress::Failed(PropagationError::UnexpectedReply);
            assert_eq!(refused, i != j, "stage {i}, reply {j}");
        }
    }
}

#[test]
fn iteration_converges_on_a_step_shorter_than_the_tolerance() {
    let (newton, _) = pending(after_mean(OrbitClass::Elliptical, 1.0));
    for short in [0.0, 9.9e-11, -9.9e-11, 0.9999999999999999e-10, 5e-324] {
        let (state, request) = pending(AnomalySolver::resume(newton, step(1.1, short, 1e-12)));
        assert_eq!(
            state.stage,
            Stage::TrueAnomaly { mean_anomaly: s(1.0), eccentric_anomaly: s(1.1) }
        );
        assert_eq!(request, true_request(OrbitClass::Elliptical, 0.1, 1.1));
    }
    for long in [1e-10, -1e-10, 1.0000000000000002e-10, 0.5, -3.0] {
        let (state, request) = pending(AnomalySolver::resume(newton, step(1.1, long, 1e-3)));
        assert_eq!(state.stage, Stage::Newton { mean_anomaly: s(1.0), completed: 1 });
        assert_eq!(request, newton_request(OrbitClass::Elliptical, 0.1, 1.0, 1.1));
    }
}

#[test]
fn iteration_is_given_up_after_the_fiftieth_step() {
    let (mut state, _) = pending(after_mean(OrbitClass::Elliptical, 1.0));
    for taken in 1..MAX_ITERATIONS {
        let (next, request) =
            pending(AnomalySolver::resume(state, step(taken as f64, 1.0, 0.25)));
        assert_eq!(next.stage, Stage::Newton { mean_anomaly: s(1.0), completed: taken });
        assert_eq!(request, newton_request(OrbitClass::Elliptical, 0.1, 1.0, taken as f64));
        state = next;
    }
    assert_eq!(
        AnomalySolver::resume(state, step(50.0, 1.0, 0.125)),
        Progress::Failed(PropagationError::DidNotConverge {
            last_iterate: s(50.0),
            residual: s(0.125),
        })
    );
    assert!(matches!(
        AnomalySolver::resume(state, step(50.0, 1e-11, 0.125)),
        Progress::Pending { .. }
    ));
}

#[test]
fn true_anomaly_finishes_the_record() {
    let (barker, _) = pending(after_mean(OrbitClass::Parabolic, 4.0));
    let (last, request) = pending(AnomalySolver::resume(barker, Reply::BarkerRoot(s(1.5))));
    assert_eq!(request, true_request(OrbitClass::Parabolic, 1.0, 1.5));
    let done = AnomalySolver::resume(last, Reply::TrueAnomaly(s(-2.0)));
    assert_eq!(done, Progress::Done(Anomaly::new(1000, s(-2.0), s(1.5), s(4.0)).unwrap()));
}

#[test]
fn true_anomaly_of_a_bound_orbit_must_lie_within_one_turn() {
    let (newton, _) = pending(after_mean(OrbitClass::Elliptical, 1.0));
    let (last, _) = pending(AnomalySolver::resume(newton, step(1.1, 0.0, 0.0)));
    for bad in [-0.5, 2.0 * std::f64::consts::PI, 100.0] {
        assert_eq!(
            AnomalySolver::resume(last, Reply::TrueAnomaly(s(bad))),
            Progress::Failed(PropagationError::OutOfRange)
        );
    }
    match AnomalySolver::resume(last, Reply::TrueAnomaly(s(1.2))) {
        Progress::Done(a) => {
            assert_eq!(a, Anomaly::new(1000, s(1.2), s(1.1), s(1.0)).unwrap());
        }
        other => panic!("expected a finished anomaly, got {other:?}"),
    }
}

#[test]
fn forged_state_cannot_smuggle_a_nan_into_a_record() {
    let forged = Propagation {
        class: OrbitClass::Hyperbolic,
        eccentricity: s(1.5),
        time_ms: 7,
        start_mean_anomaly: s(0.0),
        stage: Stage::TrueAnomaly { mean_anomaly: s(f64::NAN), eccentric_anomaly: s(1.0) },
    };
    assert_eq!(
        AnomalySolver::resume(forged, Reply::TrueAnomaly(s(0.5))),
        Progress::Failed(PropagationError::NotFinite)
    );
    let overrun = Propagation {
        class: OrbitClass::Elliptical,
        eccentricity: s(0.1),
        time_ms: 7,
        start_mean_anomaly: s(0.0),
        stage: Stage::Newton { mean_anomaly: s(1.0), completed: u32::MAX },
    };
    assert_eq!(
        AnomalySolver::resume(overrun, step(1.0, 1.0, 0.5)),
        Progress::Failed(PropagationError::DidNotConverge {
            last_iterate: s(1.0),
            residual: s(0.5),
        })
    );
}

#[test]
fn anomaly_record_refuses_numbers_that_are_not_finite() {
    assert!(Anomaly::new(0, s(0.0), s(0.0), s(0.0)).is_some());
    for bad in [f64::NAN, f64::INFINITY, f64::NEG_INFINITY] {
        assert_eq!(Anomaly::new(0, s(bad), s(0.0), s(0.0)), None);
        assert_eq!(Anomaly::new(0, s(0.0), s(bad), s(0.0)), None);
        assert_eq!(Anomaly::new(0, s(0.0), s(0.0), s(bad)), None);
    }
}

#[test]
fn anomaly_records_compare_by_value() {
    let a = Anomaly::new(5, s(0.0), s(1.0), s(2.0)).unwrap();
    let b = Anomaly::new(5, s(-0.0), s(1.0), s(2.0)).unwrap();
    let c = Anomaly::new(6, s(0.0), s(1.0), s(2.0)).unwrap();
    let d = Anomaly::new(5, s(0.0), s(1.0), s(2.5)).unwrap();
    assert_eq!(a, b);
    assert_ne!(a, c);
    assert_ne!(a, d);
    let p = Anomaly::at_periapsis(9);
    assert_eq!(p, Anomaly::new(9, s(0.0), s(0.0), s(0.0)).unwrap());
    assert_eq!(p.time_ms(), 9);
}
