//! Moving Average Convergence Divergence: the fast EMA of a series minus its
//! slow EMA, and a signal line that is an EMA of earlier MACD values.

use vstd::prelude::*;

use super::ema::{ema_window, folds_finite, ExponentialMovingAverage};
use super::{coerced, trailing, IndicatorError, PeriodIndicator, Window};

verus! {

/// A MACD indicator: a slow, a fast and a signal EMA.
pub struct MACD {
    slow_ema: ExponentialMovingAverage,
    fast_ema: ExponentialMovingAverage,
    signal_ema: ExponentialMovingAverage,
}

/// What a MACD with periods `slow` and `fast` reads of a series whose
/// elements are finite where `finite` holds: the windows of the fast and of
/// the slow EMA, in that order.
pub open spec fn macd_windows(slow: nat, fast: nat, finite: Seq<bool>) -> Result<(Window, Window), IndicatorError> {
    let len = finite.len();
    if fast >= slow {
        Err(IndicatorError::Configuration)
    } else if len < slow {
        Err(IndicatorError::InsufficientData)
    } else if !folds_finite(finite, trailing(slow, len)) {
        Err(IndicatorError::InvalidData)
    } else {
        Ok((trailing(fast, len), trailing(slow, len)))
    }
}

/// What the signal line of period `signal` reads of a series of MACD values
/// whose elements are finite where `finite` holds.
pub open spec fn signal_window(signal: nat, finite: Seq<bool>) -> Result<Window, IndicatorError> {
    if finite.len() != signal {
        Err(IndicatorError::Configuration)
    } else {
        ema_window(signal, finite)
    }
}

impl View for MACD {
    /// The slow, fast and signal periods.
    type V = (nat, nat, nat);

    closed spec fn view(&self) -> (nat, nat, nat) {
        (self.slow_ema@, self.fast_ema@, self.signal_ema@)
    }
}

impl MACD {
    /// Creates a MACD from its slow, fast and signal periods; a zero period
    /// is taken as one.
    pub fn new(slow_ema_period: usize, fast_ema_period: usize, signal_ema_period: usize) -> (r: Self)
        ensures
            r@ == (coerced(slow_ema_period), coerced(fast_ema_period), coerced(signal_ema_period)),
    {
        MACD {
            slow_ema: ExponentialMovingAverage::new(slow_ema_period),
            fast_ema: ExponentialMovingAverage::new(fast_ema_period),
            signal_ema: ExponentialMovingAverage::new(signal_ema_period),
        }
    }

    /// The period of the slow EMA.
    pub fn slow_period(&self) -> (r: usize)
        ensures
            r as nat == self@.0,
            r >= 1,
    {
        self.slow_ema.period()
    }

    /// The period of the fast EMA.
    pub fn fast_period(&self) -> (r: usize)
        ensures
            r as nat == self@.1,
            r >= 1,
    {
        self.fast_ema.period()
    }

    /// The period of the signal EMA.
    pub fn signal_period(&self) -> (r: usize)
        ensures
            r as nat == self@.2,
            r >= 1,
    {
        self.signal_ema.period()
    }

    /// The slow EMA.
    pub fn slow_ema(&self) -> (r: &ExponentialMovingAverage)
        ensures
            r@ == self@.0,
    {
        &self.slow_ema
    }

    /// The fast EMA.
    pub fn fast_ema(&self) -> (r: &ExponentialMovingAverage)
        ensures
            r@ == self@.1,
    {
        &self.fast_ema
    }

    /// The signal EMA.
    pub fn signal_ema(&self) -> (r: &ExponentialMovingAverage)
        ensures
            r@ == self@.2,
    {
        &self.signal_ema
    }

    /// The windows of a series that the fast and the slow EMA fold over, in
    /// that order; `finite[i]` tells whether element `i` is finite.
    ///
    /// Fails with `Configuration` when the fast period is not below the slow
    /// one, whatever the series; then with `InsufficientData` when the series
    /// is shorter than the slow period; then with the first error of the
    /// fast and of the slow EMA.
    pub fn windows(&self, finite: &Vec<bool>) -> (r: Result<(Window, Window), IndicatorError>)
        ensures
            r == macd_windows(self@.0, self@.1, finite@),
            self@.1 >= self@.0 ==> r == Err::<(Window, Window), IndicatorError>(IndicatorError::Configuration),
    {
        let slow = self.slow_ema.period();
        let fast = self.fast_ema.period();
        if fast >= slow {
            return Err(IndicatorError::Configuration);
        }
        if finite.len() < slow {
            return Err(IndicatorError::InsufficientData);
        }
        proof {
            let len = finite@.len();
            let (wf, ws) = (trailing(fast as nat, len), trailing(slow as nat, len));
            if !folds_finite(finite@, wf) {
                let i = choose|i: int| wf.start < i < wf.end && !finite@[i];
                assert(ws.start < i < ws.end && !finite@[i]);
            }
        }
        let fast_window = match self.fast_ema.window(finite) {
            Ok(w) => w,
            Err(e) => {
                return Err(e);
            },
        };
        let slow_window = match self.slow_ema.window(finite) {
            Ok(w) => w,
            Err(e) => {
                return Err(e);
            },
        };
        Ok((fast_window, slow_window))
    }

    /// The window of a series of earlier MACD values that the signal EMA
    /// folds over; `finite[i]` tells whether value `i` is finite.
    ///
    /// Fails with `Configuration` unless there are exactly as many values as
    /// the signal period, fewer or more; then with `InvalidData` when a value
    /// after the first is not finite.
    pub fn signal_window(&self, finite: &Vec<bool>) -> (r: Result<Window, IndicatorError>)
        ensures
            r == signal_window(self@.2, finite@),
            finite@.len() != self@.2 ==> r == Err::<Window, IndicatorError>(IndicatorError::Configuration),
    {
        if finite.len() != self.signal_ema.period() {
            return Err(IndicatorError::Configuration);
        }
        self.signal_ema.window(finite)
    }
}

} // verus!
