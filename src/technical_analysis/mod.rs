//! Technical-analysis indicators: their periods, the windows of a series they
//! read, and the errors they report.

use vstd::prelude::*;

pub mod sma;
pub mod ema;
pub mod rsi;
pub mod bollinger;
pub mod macd;

verus! {

/// The three ways an indicator computation can fail.
#[derive(Debug, Clone, Copy, PartialEq, Eq, Structural)]
pub enum IndicatorError {
    /// The series is shorter than the computation needs.
    InsufficientData,
    /// The series holds, or its computation produces, a non-finite value.
    InvalidData,
    /// The indicator's parameters do not fit together, or do not fit the input.
    Configuration,
}

/// A half-open range `start..end` of positions in a series.
#[derive(Debug, Clone, Copy, PartialEq, Eq, Structural)]
pub struct Window {
    pub start: usize,
    pub end: usize,
}

/// The period an indicator keeps when asked for `period`: zero becomes one.
pub open spec fn coerced(period: usize) -> nat {
    if period == 0 {
        1
    } else {
        period as nat
    }
}

/// The first `period` positions of a series.
pub open spec fn leading(period: nat) -> Window {
    Window { start: 0, end: period as usize }
}

/// The last `period` positions of a series of length `len`.
pub open spec fn trailing(period: nat, len: nat) -> Window {
    Window { start: (len - period) as usize, end: len as usize }
}

/// Returns `period`, or one when `period` is zero.
pub fn coerce_period(period: usize) -> (r: usize)
    ensures
        r as nat == coerced(period),
        r >= 1,
{
    if period == 0 {
        1
    } else {
        period
    }
}

/// An indicator computed over a look-back window of a configurable length.
pub trait PeriodIndicator {
    /// The current period.
    spec fn period_spec(&self) -> nat;

    /// Returns the current period, which is never zero.
    fn period(&self) -> (r: usize)
        ensures
            r as nat == self.period_spec(),
            r >= 1,
    ;

    /// Replaces the period; zero is taken as one.
    fn set_period(&mut self, period: usize)
        ensures
            final(self).period_spec() == coerced(period),
    ;
}

} // verus!
