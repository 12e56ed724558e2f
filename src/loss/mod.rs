//! Input checks of training loss functions: predictions and targets must pair
//! up one to one, and probability-based losses need probabilities.

use vstd::prelude::*;

pub mod bce;
pub mod cce;
pub mod mae;
pub mod mse;

verus! {

/// Why a loss cannot be computed.
#[derive(Debug, Clone, Copy, PartialEq, Eq, Structural)]
pub enum LossError {
    /// Predictions and targets differ in length.
    LengthMismatch,
    /// A prediction lies outside the range `[0, 1]`.
    NotAProbability,
    /// A prediction of exactly 0 or 1 meets a target that makes its
    /// logarithm undefined.
    UndefinedLogarithm,
}

/// Where a prediction stands against the probability range `[0, 1]`.
#[derive(Debug, Clone, Copy, PartialEq, Eq, Structural)]
pub enum Probability {
    /// Outside the range, as the loss function judges it.
    OutOfRange,
    /// Exactly 0.
    Zero,
    /// Exactly 1.
    One,
    /// Any other value the loss function accepts.
    Inside,
}

/// Whether predictions and targets of these lengths pair up.
pub open spec fn paired(n_predictions: nat, n_targets: nat) -> Result<(), LossError> {
    if n_predictions != n_targets {
        Err(LossError::LengthMismatch)
    } else {
        Ok(())
    }
}

/// Fails with `LengthMismatch` unless there are as many predictions as targets.
pub fn check_lengths(n_predictions: usize, n_targets: usize) -> (r: Result<(), LossError>)
    ensures
        r == paired(n_predictions as nat, n_targets as nat),
{
    if n_predictions != n_targets {
        Err(LossError::LengthMismatch)
    } else {
        Ok(())
    }
}

} // verus!
