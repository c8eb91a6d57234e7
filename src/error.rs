use vstd::prelude::*;

verus! {

/// Why a fit, a prediction or an evaluation cannot go ahead.
#[derive(Clone, Copy, Debug, PartialEq, Eq, Structural)]
pub enum RegressionError {
    /// Row or column counts of the matrices involved do not agree.
    ShapeMismatch,
    /// The normal equations have no unique solution (singular Gram matrix).
    NumericalError,
}

} // verus!
