//! Three-candle patterns.

use vstd::prelude::*;
use vstd::std_specs::cmp::{PartialOrdIs, PartialOrdSpec};

use crate::patterns::detector::PatternSignal;
use crate::types::OhlcBar;

verus! {

/// Three bullish candles (close above open), each closing above the previous one.
pub open spec fn is_three_white_soldiers<P: PartialOrd>(
    c1: OhlcBar<P>,
    c2: OhlcBar<P>,
    c3: OhlcBar<P>,
) -> bool {
    &&& c1.close.is_gt(&c1.open)
    &&& c2.close.is_gt(&c2.open)
    &&& c3.close.is_gt(&c3.open)
    &&& c2.close.is_gt(&c1.close)
    &&& c3.close.is_gt(&c2.close)
}

/// Three bearish candles (close below open), each closing below the previous one.
pub open spec fn is_three_black_crows<P: PartialOrd>(
    c1: OhlcBar<P>,
    c2: OhlcBar<P>,
    c3: OhlcBar<P>,
) -> bool {
    &&& c1.close.is_lt(&c1.open)
    &&& c2.close.is_lt(&c2.open)
    &&& c3.close.is_lt(&c3.open)
    &&& c2.close.is_lt(&c1.close)
    &&& c3.close.is_lt(&c2.close)
}

/// Three white soldiers: three bullish candles, each closing higher (bullish).
#[derive(Debug, Clone)]
pub struct ThreeWhiteSoldiers;

impl ThreeWhiteSoldiers {
    /// Creates the detector.
    pub fn new() -> (detector: Self) {
        ThreeWhiteSoldiers
    }

    /// The name of the pattern.
    pub fn name(&self) -> (name: &'static str)
        ensures
            name@ == "Three White Soldiers"@,
    {
        "Three White Soldiers"
    }

    /// `Some(Bullish)` when the last three candles form the pattern, `None`
    /// otherwise (in particular with fewer than three candles).
    pub fn detect<P: PartialOrd + Copy>(&self, candles: &[OhlcBar<P>]) -> (signal: Option<
        PatternSignal,
    >)
        ensures
            candles@.len() < 3 ==> signal is None,
            signal is Some ==> signal == Some(PatternSignal::Bullish),
            P::obeys_partial_cmp_spec() ==> (signal is Some <==> candles@.len() >= 3
                && is_three_white_soldiers(
                candles@[candles@.len() - 3],
                candles@[candles@.len() - 2],
                candles@.last(),
            )),
            P::obeys_partial_cmp_spec() ==> (signal is Some <==> candles@.len() >= 3
                && candles@[candles@.len() - 3].close.is_gt(&candles@[candles@.len() - 3].open) && candles@[candles@.len() - 2].close.is_gt(&candles@[candles@.len() - 2].open)
                && candles@.last().close.is_gt(&candles@.last().open) && candles@[candles@.len() - 2].close.is_gt(&candles@[candles@.len() - 3].close)
                && candles@.last().close.is_gt(&candles@[candles@.len() - 2].close)),
    {
        if candles.len() < 3 {
            return None;
        }
        let c1 = candles[candles.len() - 3];
        let c2 = candles[candles.len() - 2];
        let c3 = candles[candles.len() - 1];
        if c1.close > c1.open && c2.close > c2.open && c3.close > c3.open {
            if c2.close > c1.close && c3.close > c2.close {
                return Some(PatternSignal::Bullish);
            }
        }
        None
    }
}

impl Default for ThreeWhiteSoldiers {
    /// Same as `new`.
    fn default() -> (detector: Self) {
        ThreeWhiteSoldiers::new()
    }
}

/// Three black crows: three bearish candles, each closing lower (bearish).
#[derive(Debug, Clone)]
pub struct ThreeBlackCrows;

impl ThreeBlackCrows {
    /// Creates the detector.
    pub fn new() -> (detector: Self) {
        ThreeBlackCrows
    }

    /// The name of the pattern.
    pub fn name(&self) -> (name: &'static str)
        ensures
            name@ == "Three Black Crows"@,
    {
        "Three Black Crows"
    }

    /// `Some(Bearish)` when the last three candles form the pattern, `None`
    /// otherwise (in particular with fewer than three candles).
    pub fn detect<P: PartialOrd + Copy>(&self, candles: &[OhlcBar<P>]) -> (signal: Option<
        PatternSignal,
    >)
        ensures
            candles@.len() < 3 ==> signal is None,
            signal is Some ==> signal == Some(PatternSignal::Bearish),
            P::obeys_partial_cmp_spec() ==> (signal is Some <==> candles@.len() >= 3
                && is_three_black_crows(
                candles@[candles@.len() - 3],
                candles@[candles@.len() - 2],
                candles@.last(),
            )),
            P::obeys_partial_cmp_spec() ==> (signal is Some <==> candles@.len() >= 3
                && candles@[candles@.len() - 3].close.is_lt(&candles@[candles@.len() - 3].open) && candles@[candles@.len() - 2].close.is_lt(&candles@[candles@.len() - 2].open)
                && candles@.last().close.is_lt(&candles@.last().open) && candles@[candles@.len() - 2].close.is_lt(&candles@[candles@.len() - 3].close)
                && candles@.last().close.is_lt(&candles@[candles@.len() - 2].close)),
    {
        if candles.len() < 3 {
            return None;
        }
        let c1 = candles[candles.len() - 3];
        let c2 = candles[candles.len() - 2];
        let c3 = candles[candles.len() - 1];
        if c1.close < c1.open && c2.close < c2.open && c3.close < c3.open {
            if c2.close < c1.close && c3.close < c2.close {
                return Some(PatternSignal::Bearish);
            }
        }
        None
    }
}

impl Default for ThreeBlackCrows {
    /// Same as `new`.
    fn default() -> (detector: Self) {
        ThreeBlackCrows::new()
    }
}

} // verus!
