//! Two-candle patterns.

use vstd::prelude::*;
use vstd::std_specs::cmp::{PartialOrdIs, PartialOrdSpec};

use crate::patterns::detector::PatternSignal;
use crate::types::OhlcBar;

verus! {

/// `prev` is bearish (its close is not at or above its open) and `curr` is a
/// bullish candle whose body engulfs the body of `prev`.
pub open spec fn is_bullish_engulfing<P: PartialOrd>(prev: OhlcBar<P>, curr: OhlcBar<P>) -> bool {
    &&& !prev.close.is_ge(&prev.open)
    &&& curr.close.is_gt(&curr.open)
    &&& curr.open.is_lt(&prev.close)
    &&& curr.close.is_gt(&prev.open)
}

/// `prev` is bullish (its close is not at or below its open) and `curr` is a
/// bearish candle whose body engulfs the body of `prev`.
pub open spec fn is_bearish_engulfing<P: PartialOrd>(prev: OhlcBar<P>, curr: OhlcBar<P>) -> bool {
    &&& !prev.close.is_le(&prev.open)
    &&& curr.close.is_lt(&curr.open)
    &&& curr.open.is_gt(&prev.close)
    &&& curr.close.is_lt(&prev.open)
}

/// Bullish engulfing: a bearish candle followed by a bullish candle whose body engulfs it.
#[derive(Debug, Clone)]
pub struct BullishEngulfing;

impl BullishEngulfing {
    /// Creates the detector.
    pub fn new() -> (detector: Self) {
        BullishEngulfing
    }

    /// The name of the pattern.
    pub fn name(&self) -> (name: &'static str)
        ensures
            name@ == "Bullish Engulfing"@,
    {
        "Bullish Engulfing"
    }

    /// `Some(Bullish)` when the last two candles form a bullish engulfing
    /// pattern, `None` otherwise (in particular with fewer than two candles).
    pub fn detect<P: PartialOrd + Copy>(&self, candles: &[OhlcBar<P>]) -> (signal: Option<
        PatternSignal,
    >)
        ensures
            candles@.len() < 2 ==> signal is None,
            signal is Some ==> signal == Some(PatternSignal::Bullish),
            P::obeys_partial_cmp_spec() ==> (signal is Some <==> candles@.len() >= 2
                && is_bullish_engulfing(candles@[candles@.len() - 2], candles@.last())),
            P::obeys_partial_cmp_spec() ==> (signal is Some <==> candles@.len() >= 2
                && !candles@[candles@.len() - 2].close.is_ge(&candles@[candles@.len() - 2].open) && candles@.last().close.is_gt(&candles@.last().open)
                && candles@.last().open.is_lt(&candles@[candles@.len() - 2].close) && candles@.last().close.is_gt(&candles@[candles@.len() - 2].open)),
    {
        if candles.len() < 2 {
            return None;
        }
        let prev = candles[candles.len() - 2];
        let curr = candles[candles.len() - 1];
        if prev.close >= prev.open {
            return None;
        }
        if curr.close > curr.open && curr.open < prev.close && curr.close > prev.open {
            Some(PatternSignal::Bullish)
        } else {
            None
        }
    }
}

impl Default for BullishEngulfing {
    /// Same as `new`.
    fn default() -> (detector: Self) {
        BullishEngulfing::new()
    }
}

/// Bearish engulfing: a bullish candle followed by a bearish candle whose body engulfs it.
#[derive(Debug, Clone)]
pub struct BearishEngulfing;

impl BearishEngulfing {
    /// Creates the detector.
    pub fn new() -> (detector: Self) {
        BearishEngulfing
    }

    /// The name of the pattern.
    pub fn name(&self) -> (name: &'static str)
        ensures
            name@ == "Bearish Engulfing"@,
    {
        "Bearish Engulfing"
    }

    /// `Some(Bearish)` when the last two candles form a bearish engulfing
    /// pattern, `None` otherwise (in particular with fewer than two candles).
    pub fn detect<P: PartialOrd + Copy>(&self, candles: &[OhlcBar<P>]) -> (signal: Option<
        PatternSignal,
    >)
        ensures
            candles@.len() < 2 ==> signal is None,
            signal is Some ==> signal == Some(PatternSignal::Bearish),
            P::obeys_partial_cmp_spec() ==> (signal is Some <==> candles@.len() >= 2
                && is_bearish_engulfing(candles@[candles@.len() - 2], candles@.last())),
            P::obeys_partial_cmp_spec() ==> (signal is Some <==> candles@.len() >= 2
                && !candles@[candles@.len() - 2].close.is_le(&candles@[candles@.len() - 2].open) && candles@.last().close.is_lt(&candles@.last().open)
                && candles@.last().open.is_gt(&candles@[candles@.len() - 2].close) && candles@.last().close.is_lt(&candles@[candles@.len() - 2].open)),
    {
        if candles.len() < 2 {
            return None;
        }
        let prev = candles[candles.len() - 2];
        let curr = candles[candles.len() - 1];
        if prev.close <= prev.open {
            return None;
        }
        if curr.close < curr.open && curr.open > prev.close && curr.close < prev.open {
            Some(PatternSignal::Bearish)
        } else {
            None
        }
    }
}

impl Default for BearishEngulfing {
    /// Same as `new`.
    fn default() -> (detector: Self) {
        BearishEngulfing::new()
    }
}

} // verus!
