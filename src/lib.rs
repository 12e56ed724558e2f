//! Windowing, validation and decision rules of a small quantitative toolkit:
//! technical-analysis indicators (SMA, EMA, RSI, Bollinger Bands, MACD) and
//! the input checks of training loss functions.
//!
//! Every numeric series is described here by what the rules read of it: its
//! length, which of its elements are finite, and the direction of each move
//! between neighbours. The floating-point arithmetic over the selected
//! elements is left to the caller.

pub mod technical_analysis;
pub mod loss;
