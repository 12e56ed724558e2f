//! Simple Moving Average: the arithmetic mean of the first `period` elements
//! of a series.

use vstd::prelude::*;

use super::{coerce_period, coerced, leading, IndicatorError, PeriodIndicator, Window};

verus! {

/// A Simple Moving Average over the leading `period` elements of a series.
pub struct SimpleMovingAverage {
    period: usize,
}

/// What a Simple Moving Average of period `period` reads of a series of
/// length `len`.
pub open spec fn sma_window(period: nat, len: nat) -> Result<Window, IndicatorError> {
    if len < period {
        Err(IndicatorError::InsufficientData)
    } else {
        Ok(leading(period))
    }
}

impl View for SimpleMovingAverage {
    type V = nat;

    closed spec fn view(&self) -> nat {
        self.period as nat
    }
}

impl SimpleMovingAverage {
    #[verifier::type_invariant]
    spec fn inv(&self) -> bool {
        self.period >= 1
    }

    /// Creates an SMA of the given period; zero is taken as one.
    pub fn new(period: usize) -> (r: Self)
        ensures
            r@ == coerced(period),
    {
        SimpleMovingAverage { period: coerce_period(period) }
    }

    /// The positions of a series of length `len` that the average is taken
    /// over: the first `period` ones. Fails with `InsufficientData` when the
    /// series is shorter than the period.
    pub fn window(&self, len: usize) -> (r: Result<Window, IndicatorError>)
        ensures
            r == sma_window(self@, len as nat),
    {
        if len < self.period {
            Err(IndicatorError::InsufficientData)
        } else {
            Ok(Window { start: 0, end: self.period })
        }
    }
}

impl PeriodIndicator for SimpleMovingAverage {
    open spec fn period_spec(&self) -> nat {
        self@
    }

    fn period(&self) -> (r: usize) {
        proof {
            use_type_invariant(self);
        }
        self.period
    }

    fn set_period(&mut self, period: usize) {
        self.period = coerce_period(period);
    }
}

} // verus!
