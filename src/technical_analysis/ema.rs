//! Exponential Moving Average over the last `period` elements of a series.
//!
//! The running value is seeded with the first element of the window and
//! updated for every later element `v` as `(v - ema) * smoothing + ema`, with
//! `smoothing = 2 / (period + 1)`. Every element folded in after the seed must
//! be finite.

use vstd::prelude::*;

use super::{coerce_period, coerced, trailing, IndicatorError, PeriodIndicator, Window};

verus! {

/// An Exponential Moving Average over the trailing `period` elements of a series.
pub struct ExponentialMovingAverage {
    period: usize,
}

/// Whether every element of `w` after its first is finite, given the
/// finiteness of each element of the series.
pub open spec fn folds_finite(finite: Seq<bool>, w: Window) -> bool {
    forall|i: int| w.start < i < w.end ==> #[trigger] finite[i]
}

/// What an EMA of period `period` reads of a series whose elements are
/// finite where `finite` holds.
pub open spec fn ema_window(period: nat, finite: Seq<bool>) -> Result<Window, IndicatorError> {
    if finite.len() < period {
        Err(IndicatorError::InsufficientData)
    } else if !folds_finite(finite, trailing(period, finite.len())) {
        Err(IndicatorError::InvalidData)
    } else {
        Ok(trailing(period, finite.len()))
    }
}

impl View for ExponentialMovingAverage {
    type V = nat;

    closed spec fn view(&self) -> nat {
        self.period as nat
    }
}

impl ExponentialMovingAverage {
    #[verifier::type_invariant]
    spec fn inv(&self) -> bool {
        self.period >= 1
    }

    /// Creates an EMA of the given period; zero is taken as one.
    pub fn new(period: usize) -> (r: Self)
        ensures
            r@ == coerced(period),
    {
        ExponentialMovingAverage { period: coerce_period(period) }
    }

    /// The positions of a series that the average is folded over: the last
    /// `period` ones, the first of them being the seed. `finite[i]` tells
    /// whether element `i` of the series is finite.
    ///
    /// Fails with `InsufficientData` when the series is shorter than the
    /// period, and otherwise with `InvalidData` when an element after the
    /// seed is not finite.
    pub fn window(&self, finite: &Vec<bool>) -> (r: Result<Window, IndicatorError>)
        ensures
            r == ema_window(self@, finite@),
    {
        proof {
            use_type_invariant(self);
        }
        let len = finite.len();
        if len < self.period {
            return Err(IndicatorError::InsufficientData);
        }
        let start = len - self.period;
        let mut i: usize = start + 1;
        while i < len
            invariant
                start + 1 <= i <= len,
                start == len - self@,
                len == finite@.len(),
                forall|j: int| start < j < i ==> #[trigger] finite@[j],
            decreases len - i,
        {
            if !finite[i] {
                proof {
                    let w = trailing(self@, len as nat);
                    assert(w.start < i < w.end && !finite@[i as int]);
                }
                return Err(IndicatorError::InvalidData);
            }
            i = i + 1;
        }
        Ok(Window { start, end: len })
    }
}

impl PeriodIndicator for ExponentialMovingAverage {
    open spec fn period_spec(&self) -> nat {
        self@
    }

    fn period(&self) -> (r: usize) {
        proof {
            use_type_invariant(self);
        }
        self.period
    }

    fn set_period(&mut self, period: usize) {
        self.period = coerce_period(period);
    }
}

} // verus!
