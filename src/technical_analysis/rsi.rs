//! Relative Strength Index.
//!
//! Every change between neighbouring elements of the whole series counts:
//! positive changes add to the gains, all others (their magnitude) to the
//! losses. Without gains the index is 0; with gains and no losses it is 100;
//! otherwise it is `100 - 100 / (1 + gains / losses)`. The period only sets
//! how many changes the series must have.

use vstd::prelude::*;

use super::{coerce_period, coerced, IndicatorError, PeriodIndicator};

verus! {

/// The sign of the change `next - previous` between two neighbouring elements.
#[derive(Debug, Clone, Copy, PartialEq, Eq, Structural)]
pub enum Move {
    /// The change is positive: it adds to the gains.
    Rise,
    /// The change is negative: its magnitude adds to the losses.
    Fall,
    /// The change is zero: it adds nothing.
    Flat,
    /// The change is not a number: the losses become undefined.
    Undefined,
}

/// Which form the index of a series takes.
#[derive(Debug, Clone, Copy, PartialEq, Eq, Structural)]
pub enum RsiReading {
    /// No change added to the gains: the index is 0.
    Zero,
    /// Some change added to the gains and none to the losses: the index is 100.
    Hundred,
    /// Both sides moved: the index is `100 - 100 / (1 + gains / losses)`.
    Ratio,
}

/// A Relative Strength Index of a configurable period.
pub struct RelativeStrengthIndex {
    period: usize,
}

/// Whether some change of the series is a rise.
pub open spec fn has_rise(moves: Seq<Move>) -> bool {
    exists|i: int| 0 <= i < moves.len() && moves[i] == Move::Rise
}

/// Whether no change of the series adds to the losses.
pub open spec fn lossless(moves: Seq<Move>) -> bool {
    forall|i: int| 0 <= i < moves.len() ==> #[trigger] moves[i] == Move::Rise || moves[i] == Move::Flat
}

/// The form the index takes for a series with changes `moves`.
pub open spec fn rsi_reading(moves: Seq<Move>) -> RsiReading {
    if !has_rise(moves) {
        RsiReading::Zero
    } else if lossless(moves) {
        RsiReading::Hundred
    } else {
        RsiReading::Ratio
    }
}

/// The outcome of an RSI of period `period` on a series with changes `moves`:
/// a series of `n` elements has `n - 1` changes, and needs at least `period`.
pub open spec fn rsi_outcome(period: nat, moves: Seq<Move>) -> Result<RsiReading, IndicatorError> {
    if moves.len() < period {
        Err(IndicatorError::InsufficientData)
    } else {
        Ok(rsi_reading(moves))
    }
}

impl View for RelativeStrengthIndex {
    type V = nat;

    closed spec fn view(&self) -> nat {
        self.period as nat
    }
}

impl RelativeStrengthIndex {
    #[verifier::type_invariant]
    spec fn inv(&self) -> bool {
        self.period >= 1
    }

    /// Creates an RSI of the given period; zero is taken as one.
    pub fn new(period: usize) -> (r: Self)
        ensures
            r@ == coerced(period),
    {
        RelativeStrengthIndex { period: coerce_period(period) }
    }

    /// Decides the form of the index from the changes between neighbouring
    /// elements of the series, in order. Fails with `InsufficientData` when
    /// there are fewer changes than the period, that is when the series has
    /// fewer than `period + 1` elements.
    pub fn reading(&self, moves: &Vec<Move>) -> (r: Result<RsiReading, IndicatorError>)
        ensures
            r == rsi_outcome(self@, moves@),
    {
        if moves.len() < self.period {
            return Err(IndicatorError::InsufficientData);
        }
        let mut gained = false;
        let mut lost = false;
        let mut i: usize = 0;
        while i < moves.len()
            invariant
                i <= moves@.len(),
                gained <==> exists|j: int| 0 <= j < i && moves@[j] == Move::Rise,
                !lost <==> forall|j: int| 0 <= j < i ==> #[trigger] moves@[j] == Move::Rise || moves@[j] == Move::Flat,
            decreases moves@.len() - i,
        {
            match moves[i] {
                Move::Rise => {
                    gained = true;
                },
                Move::Flat => {},
                _ => {
                    lost = true;
                },
            }
            i = i + 1;
        }
        if !gained {
            Ok(RsiReading::Zero)
        } else if !lost {
            Ok(RsiReading::Hundred)
        } else {
            Ok(RsiReading::Ratio)
        }
    }
}

impl PeriodIndicator for RelativeStrengthIndex {
    open spec fn period_spec(&self) -> nat {
        self@
    }

    fn period(&self) -> (r: usize) {
        proof {
            use_type_invariant(self);
        }
        self.period
    }

    fn set_period(&mut self, period: usize) {
        self.period = coerce_period(period);
    }
}

/// A series that rises at every one of at least `period` changes has an
/// index of 100; one that falls at every change has an index of 0.
pub proof fn lemma_rsi_monotone(period: nat, moves: Seq<Move>)
    requires
        period >= 1,
        moves.len() >= period,
    ensures
        (forall|i: int| 0 <= i < moves.len() ==> moves[i] == Move::Rise) ==> rsi_outcome(period, moves)
            == Ok::<RsiReading, IndicatorError>(RsiReading::Hundred),
        (forall|i: int| 0 <= i < moves.len() ==> moves[i] == Move::Fall) ==> rsi_outcome(period, moves)
            == Ok::<RsiReading, IndicatorError>(RsiReading::Zero),
{
    if forall|i: int| 0 <= i < moves.len() ==> moves[i] == Move::Rise {
        assert(moves[0] == Move::Rise);
    }
}

} // verus!
