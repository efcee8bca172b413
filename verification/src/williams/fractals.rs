//! Fractals: five-bar turning points.

use vstd::prelude::*;
use vstd::std_specs::cmp::{PartialOrdIs, PartialOrdSpec};

use crate::errors::IndicatorResult;
use crate::types::OhlcBar;

verus! {

/// The kind of fractal found at the middle bar of a five-bar window.
#[derive(Debug, Clone, Copy, PartialEq, Structural)]
pub enum FractalType {
    /// The middle high is above the highs of the two bars on each side.
    Up,
    /// The middle low is below the lows of the two bars on each side.
    Down,
    /// Neither. (Not named `None`, which would shadow `Option::None`.)
    NoFractal,
}

/// The fractal at the middle bar `c3` of the five bars `c1`..`c5`: `Up` when its
/// high is above the four other highs, otherwise `Down` when its low is below the
/// four other lows, otherwise none.
pub open spec fn fractal_of<P: PartialOrd>(
    c1: OhlcBar<P>,
    c2: OhlcBar<P>,
    c3: OhlcBar<P>,
    c4: OhlcBar<P>,
    c5: OhlcBar<P>,
) -> FractalType {
    if c3.high.is_gt(&c1.high) && c3.high.is_gt(&c2.high) && c3.high.is_gt(&c4.high)
        && c3.high.is_gt(&c5.high) {
        FractalType::Up
    } else if c3.low.is_lt(&c1.low) && c3.low.is_lt(&c2.low) && c3.low.is_lt(&c4.low)
        && c3.low.is_lt(&c5.low) {
        FractalType::Down
    } else {
        FractalType::NoFractal
    }
}

/// Fractal detector.
#[derive(Debug, Clone)]
pub struct Fractals;

impl Fractals {
    /// Creates the detector.
    pub fn new() -> (detector: Self) {
        Fractals
    }

    /// The fractal formed by the last five bars, centred on the third last one;
    /// no fractal with fewer than five bars. Detection always succeeds.
    pub fn detect<P: PartialOrd + Copy>(&self, candles: &[OhlcBar<P>]) -> (r: IndicatorResult<
        FractalType,
    >)
        ensures
            r is Ok,
            candles@.len() < 5 ==> r == Ok::<FractalType, crate::errors::IndicatorError>(
                FractalType::NoFractal,
            ),
            P::obeys_partial_cmp_spec() && candles@.len() >= 5 ==> r == Ok::<
                FractalType,
                crate::errors::IndicatorError,
            >(
                fractal_of(
                    candles@[candles@.len() - 5],
                    candles@[candles@.len() - 4],
                    candles@[candles@.len() - 3],
                    candles@[candles@.len() - 2],
                    candles@.last(),
                ),
            ),
            P::obeys_partial_cmp_spec() && candles@.len() >= 5 ==> (r == Ok::<FractalType, crate::errors::IndicatorError>(FractalType::Up)
                <==> (candles@[candles@.len() - 3].high.is_gt(&candles@[candles@.len() - 5].high) && candles@[candles@.len() - 3].high.is_gt(&candles@[candles@.len() - 4].high) && candles@[candles@.len() - 3].high.is_gt(&candles@[candles@.len() - 2].high) && candles@[candles@.len() - 3].high.is_gt(&candles@.last().high))),
            P::obeys_partial_cmp_spec() && candles@.len() >= 5 ==> (r == Ok::<FractalType, crate::errors::IndicatorError>(FractalType::Down)
                <==> (!(candles@[candles@.len() - 3].high.is_gt(&candles@[candles@.len() - 5].high) && candles@[candles@.len() - 3].high.is_gt(&candles@[candles@.len() - 4].high) && candles@[candles@.len() - 3].high.is_gt(&candles@[candles@.len() - 2].high) && candles@[candles@.len() - 3].high.is_gt(&candles@.last().high)) && candles@[candles@.len() - 3].low.is_lt(&candles@[candles@.len() - 5].low) && candles@[candles@.len() - 3].low.is_lt(&candles@[candles@.len() - 4].low) && candles@[candles@.len() - 3].low.is_lt(&candles@[candles@.len() - 2].low) && candles@[candles@.len() - 3].low.is_lt(&candles@.last().low))),
    {
        if candles.len() < 5 {
            return Ok(FractalType::NoFractal);
        }
        let c1 = candles[candles.len() - 5];
        let c2 = candles[candles.len() - 4];
        let c3 = candles[candles.len() - 3];
        let c4 = candles[candles.len() - 2];
        let c5 = candles[candles.len() - 1];
        if c3.high > c1.high && c3.high > c2.high && c3.high > c4.high && c3.high > c5.high {
            return Ok(FractalType::Up);
        }
        if c3.low < c1.low && c3.low < c2.low && c3.low < c4.low && c3.low < c5.low {
            return Ok(FractalType::Down);
        }
        Ok(FractalType::NoFractal)
    }
}

impl Default for Fractals {
    /// Same as `new`.
    fn default() -> (detector: Self) {
        Fractals::new()
    }
}

} // verus!
