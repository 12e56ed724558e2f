//! Categorical Cross-Entropy: `-t ln p` averaged over the pairs of a
//! prediction `p` and a target `t`, where a prediction of 0 contributes
//! nothing. Every prediction must be a probability.

use vstd::prelude::*;

use super::{LossError, Probability};

verus! {

/// The Categorical Cross-Entropy loss.
pub struct CategoricalCrossEntropyLossFunction;

/// Whether some prediction lies outside `[0, 1]`.
pub open spec fn any_out_of_range(ps: Seq<Probability>) -> bool {
    exists|i: int| 0 <= i < ps.len() && ps[i] == Probability::OutOfRange
}

/// The verdict on predictions `ps` and `n_targets` targets.
pub open spec fn cce_check(ps: Seq<Probability>, n_targets: nat) -> Result<(), LossError> {
    if ps.len() != n_targets {
        Err(LossError::LengthMismatch)
    } else if any_out_of_range(ps) {
        Err(LossError::NotAProbability)
    } else {
        Ok(())
    }
}

impl CategoricalCrossEntropyLossFunction {
    /// Checks that the predictions, as placed against `[0, 1]`, can be
    /// compared with `n_targets` targets. Fails with `LengthMismatch` when
    /// the lengths differ, and otherwise with `NotAProbability` when some
    /// prediction lies outside the range.
    pub fn validate(&self, predictions: &Vec<Probability>, n_targets: usize) -> (r: Result<(), LossError>)
        ensures
            r == cce_check(predictions@, n_targets as nat),
    {
        if predictions.len() != n_targets {
            return Err(LossError::LengthMismatch);
        }
        let mut i: usize = 0;
        while i < predictions.len()
            invariant
                i <= predictions@.len(),
                predictions@.len() == n_targets,
                forall|j: int| 0 <= j < i ==> predictions@[j] != Probability::OutOfRange,
            decreases predictions@.len() - i,
        {
            if let Probability::OutOfRange = predictions[i] {
                assert(predictions@[i as int] == Probability::OutOfRange);
                return Err(LossError::NotAProbability);
            }
            i = i + 1;
        }
        Ok(())
    }
}

} // verus!
