//! Mean Absolute Error: the mean of the absolute differences between
//! predictions and targets.

use vstd::prelude::*;

use super::{check_lengths, paired, LossError};

verus! {

/// The Mean Absolute Error loss.
pub struct MeanAbsoluteErrorLossFunction;

impl MeanAbsoluteErrorLossFunction {
    /// Checks that `n_predictions` predictions can be compared with
    /// `n_targets` targets.
    pub fn validate(&self, n_predictions: usize, n_targets: usize) -> (r: Result<(), LossError>)
        ensures
            r == paired(n_predictions as nat, n_targets as nat),
    {
        check_lengths(n_predictions, n_targets)
    }
}

} // verus!
