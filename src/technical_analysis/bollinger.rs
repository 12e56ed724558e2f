//! Bollinger Bands: the mean of the first `period` elements of a series, with
//! an upper and a lower band two population standard deviations (over the
//! same elements) above and below it.

use vstd::prelude::*;

use super::sma::{sma_window, SimpleMovingAverage};
use super::{coerced, IndicatorError, PeriodIndicator, Window};

verus! {

/// Bollinger Bands over the leading `period` elements of a series.
///
/// The mean comes from an owned Simple Moving Average, which always has the
/// period of the bands.
pub struct BollingerBands {
    sma: SimpleMovingAverage,
}

impl View for BollingerBands {
    type V = nat;

    closed spec fn view(&self) -> nat {
        self.sma@
    }
}

impl BollingerBands {
    /// Creates bands of the given period; zero is taken as one.
    pub fn new(period: usize) -> (r: Self)
        ensures
            r@ == coerced(period),
    {
        BollingerBands { sma: SimpleMovingAverage::new(period) }
    }

    /// The owned moving average that gives the middle of the bands.
    pub fn sma(&self) -> (r: &SimpleMovingAverage)
        ensures
            r@ == self@,
    {
        &self.sma
    }

    /// The positions of a series of length `len` that the mean and the
    /// variance are taken over: the first `period` ones. Fails with
    /// `InsufficientData` when the series is shorter than the period.
    pub fn window(&self, len: usize) -> (r: Result<Window, IndicatorError>)
        ensures
            r == sma_window(self@, len as nat),
    {
        self.sma.window(len)
    }
}

impl PeriodIndicator for BollingerBands {
    open spec fn period_spec(&self) -> nat {
        self@
    }

    fn period(&self) -> (r: usize) {
        self.sma.period()
    }

    fn set_period(&mut self, period: usize) {
        self.sma.set_period(period);
    }
}

} // verus!
