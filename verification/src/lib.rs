//! Two-body Keplerian orbits with a verified core.
//!
//! The library holds everything that can be decided without rounding: which
//! elements make an orbit of which class, which relation gives a quantity and
//! what is accepted as its value, and the course of a propagation in time,
//! from the first request to the finished anomaly or the error. Real
//! quantities are carried as binary64 bit patterns (`scalar::Scalar`), and
//! their signs and order are decided on the pattern. Arithmetic on them is
//! done by an implementation of `arithmetic::Arithmetic`, of which nothing is
//! assumed.
//!
//! - `scalar`: bit patterns, the numbers they stand for, and their order.
//! - `body`, `orbit`, `anomaly`: the validated records.
//! - `relation`: the formulas that may be asked for, and what is accepted.
//! - `dynamics`: the quantities of an orbit, each with its plan.
//! - `solver`: propagation of the anomaly in time.

pub mod anomaly;
pub mod arithmetic;
pub mod body;
pub mod dynamics;
pub mod orbit;
pub mod relation;
pub mod scalar;
pub mod solver;

pub use crate::anomaly::Anomaly;
pub use crate::arithmetic::Arithmetic;
pub use crate::body::{GravitatingBody, InvalidBodyError};
pub use crate::orbit::{InvalidElementsError, Orbit, OrbitClass, OrbitElements};
pub use crate::relation::{Plan, QuantityError, Relation};
pub use crate::scalar::Scalar;
pub use crate::solver::{
    AnomalySolver, Progress, Propagation, PropagationError, Reply, Request, Stage,
};
