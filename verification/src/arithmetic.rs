//! The door through which arithmetic on real numbers comes in.

use crate::relation::Relation;
use crate::scalar::Scalar;
use crate::solver::{Reply, Request};
use vstd::prelude::*;

verus! {

/// The arithmetic on real numbers that the library needs done. Nothing is
/// assumed of an implementation: every number that comes back is checked, and
/// what is proved of the functions that call it holds whatever comes back.
pub trait Arithmetic {
    /// The value of the relation at its operands.
    fn evaluate(&self, relation: Relation) -> Scalar;

    /// Performs the computation that `request` describes for the anomaly
    /// solver.
    fn answer(&self, request: Request) -> Reply;
}

} // verus!
