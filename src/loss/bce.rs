//! Binary Cross-Entropy: `-(t ln p + (1 - t) ln(1 - p))` averaged over the
//! pairs of a prediction `p` and a target `t`.
//!
//! Every prediction must be a probability. A prediction of exactly 0 or 1
//! contributes nothing when its target agrees with it (0 with 0, 1 with 1) and
//! makes the loss undefined otherwise. The pairs are checked in order and the
//! first that fails decides the error.

use vstd::prelude::*;

use super::{paired, LossError, Probability};

verus! {

/// Where a target stands against the two labels of a binary classification.
#[derive(Debug, Clone, Copy, PartialEq, Eq, Structural)]
pub enum Label {
    /// Exactly 0.
    Zero,
    /// Exactly 1.
    One,
    /// Any other value.
    Other,
}

/// The Binary Cross-Entropy loss.
pub struct BinaryCrossEntropyLossFunction;

/// Whether a prediction and its target can enter the loss.
pub open spec fn bce_pair(p: Probability, t: Label) -> Result<(), LossError> {
    match p {
        Probability::OutOfRange => Err(LossError::NotAProbability),
        Probability::Zero => if t == Label::Zero {
            Ok(())
        } else {
            Err(LossError::UndefinedLogarithm)
        },
        Probability::One => if t == Label::One {
            Ok(())
        } else {
            Err(LossError::UndefinedLogarithm)
        },
        Probability::Inside => Ok(()),
    }
}

/// The verdict on the first `n` pairs, checked in order.
pub open spec fn bce_scan(ps: Seq<Probability>, ts: Seq<Label>, n: nat) -> Result<(), LossError>
    decreases n,
{
    if n == 0 {
        Ok(())
    } else {
        match bce_scan(ps, ts, (n - 1) as nat) {
            Err(e) => Err(e),
            Ok(_) => bce_pair(ps[n - 1], ts[n - 1]),
        }
    }
}

/// The verdict on predictions `ps` and targets `ts`.
pub open spec fn bce_check(ps: Seq<Probability>, ts: Seq<Label>) -> Result<(), LossError> {
    match paired(ps.len(), ts.len()) {
        Err(e) => Err(e),
        Ok(_) => bce_scan(ps, ts, ps.len()),
    }
}

/// Once a pair has failed, the verdict on every longer prefix is that failure.
proof fn lemma_bce_scan_stays(ps: Seq<Probability>, ts: Seq<Label>, n: nat, m: nat)
    requires
        n <= m,
        bce_scan(ps, ts, n) is Err,
    ensures
        bce_scan(ps, ts, m) == bce_scan(ps, ts, n),
    decreases m - n,
{
    if n < m {
        lemma_bce_scan_stays(ps, ts, n, (m - 1) as nat);
    }
}

impl BinaryCrossEntropyLossFunction {
    /// Checks that the predictions, as placed against `[0, 1]`, can be
    /// compared with the targets, as placed against the labels 0 and 1.
    /// Fails with `LengthMismatch` when their lengths differ, and otherwise
    /// with the error of the first pair that cannot enter the loss.
    pub fn validate(&self, predictions: &Vec<Probability>, targets: &Vec<Label>) -> (r: Result<(), LossError>)
        ensures
            r == bce_check(predictions@, targets@),
    {
        if predictions.len() != targets.len() {
            return Err(LossError::LengthMismatch);
        }
        let mut i: usize = 0;
        while i < predictions.len()
            invariant
                i <= predictions@.len(),
                predictions@.len() == targets@.len(),
                bce_scan(predictions@, targets@, i as nat) == Ok::<(), LossError>(()),
            decreases predictions@.len() - i,
        {
            let t = targets[i];
            let verdict = match predictions[i] {
                Probability::OutOfRange => Err(LossError::NotAProbability),
                Probability::Zero => match t {
                    Label::Zero => Ok(()),
                    _ => Err(LossError::UndefinedLogarithm),
                },
                Probability::One => match t {
                    Label::One => Ok(()),
                    _ => Err(LossError::UndefinedLogarithm),
                },
                Probability::Inside => Ok(()),
            };
            assert(bce_scan(predictions@, targets@, (i + 1) as nat) == verdict);
            if verdict.is_err() {
                proof {
                    lemma_bce_scan_stays(predictions@, targets@, (i + 1) as nat, predictions@.len());
                }
                return verdict;
            }
            i = i + 1;
        }
        Ok(())
    }
}

} // verus!
