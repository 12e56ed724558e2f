//! Mean Squared Error: the mean of the squared differences between
//! predictions and targets.

use vstd::prelude::*;

use super::{check_lengths, paired, LossError};

verus! {

/// The Mean Squared Error loss.
pub struct MeanSquaredErrorLossFunction;

impl MeanSquaredErrorLossFunction {
    /// Checks that `n_predictions` predictions can be compared with
    /// `n_targets` targets.
    pub fn validate(&self, n_predictions: usize, n_targets: usize) -> (r: Result<(), LossError>)
        ensures
            r == paired(n_predictions as nat, n_targets as nat),
    {
        check_lengths(n_predictions, n_targets)
    }
}

} // verus!
