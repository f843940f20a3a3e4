//! The objective: a closed set of pure transforms applied once per output
//! value to the accumulated raw score.

use vstd::prelude::*;

verus! {

/// A pure post-processing transform for accumulated raw scores.  The set is
/// closed: a model naming any other objective is rejected at load time.
#[derive(Clone, Copy, Debug, PartialEq, Eq, Structural)]
pub enum Objective {
    /// Regression with squared error: the identity transform.
    SquaredError,
}

/// What `Objective::apply` returns for a raw score given as double bits.
pub open spec fn spec_apply(o: Objective, x: u64) -> u64 {
    match o {
        Objective::SquaredError => x,
    }
}

impl Objective {
    /// Applies the transform to one raw score given as double bits.
    pub fn apply(&self, x: u64) -> (r: u64)
        ensures
            r == spec_apply(*self, x),
    {
        match self {
            Objective::SquaredError => x,
        }
    }
}

} // verus!
