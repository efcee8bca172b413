//! Laws of the candlestick-pattern and fractal detectors, stated on the prices.
//!
//! The `detect` contracts say when each detector fires; the proofs here state
//! what a detection implies about the candles' prices, and which detections
//! exclude each other.

use core::cmp::Ordering;
use vstd::prelude::*;
use vstd::std_specs::cmp::{PartialOrdIs, PartialOrdSpec};

use crate::patterns::double::{is_bearish_engulfing, is_bullish_engulfing};
use crate::patterns::triple::{is_three_black_crows, is_three_white_soldiers};
use crate::types::OhlcBar;
use crate::utils::window_laws::compares_totally;
use crate::williams::fractals::{fractal_of, FractalType};

verus! {

/// Under a total order, `a < b < c` implies `a < c`.
proof fn lemma_less_transitive<P: PartialOrd>(a: P, b: P, c: P)
    requires
        compares_totally::<P>(),
        a.is_lt(&b),
        b.is_lt(&c),
    ensures
        a.is_lt(&c),
{
    assert(b.partial_cmp_spec(&a) == Some(Ordering::Greater));
    assert(c.partial_cmp_spec(&b) == Some(Ordering::Greater));
    assert(a.partial_cmp_spec(&b) != Some(Ordering::Greater));
    assert(b.partial_cmp_spec(&c) != Some(Ordering::Greater));
    assert(a.partial_cmp_spec(&c) != Some(Ordering::Greater));
    if a.partial_cmp_spec(&c) != Some(Ordering::Less) {
        // then a and c compare equal, so c is not greater than a ...
        assert(a.partial_cmp_spec(&c) is Some);
        assert(c.partial_cmp_spec(&a) != Some(Ordering::Greater));
        // ... and b <= c <= a would make b not greater than a.
        assert(b.partial_cmp_spec(&a) != Some(Ordering::Greater));
        assert(false);
    }
}

/// A bullish engulfing detection means: the previous candle does not close at or
/// above its open, the last candle closes above its open, opens below the
/// previous close and closes above the previous open. When prices are totally
/// ordered the last body strictly contains the previous one:
/// `curr.open < prev.close < prev.open < curr.close`.
pub proof fn lemma_bullish_engulfing_covers_previous_body<P: PartialOrd>(
    prev: OhlcBar<P>,
    curr: OhlcBar<P>,
)
    requires
        is_bullish_engulfing(prev, curr),
    ensures
        !prev.close.is_ge(&prev.open),
        curr.close.is_gt(&curr.open),
        curr.open.is_lt(&prev.close),
        curr.close.is_gt(&prev.open),
        compares_totally::<P>() ==> curr.open.is_lt(&prev.close) && prev.close.is_lt(&prev.open)
            && prev.open.is_lt(&curr.close),
{
    if compares_totally::<P>() {
        assert(prev.close.partial_cmp_spec(&prev.open) is Some);
        assert(prev.open.partial_cmp_spec(&curr.close) == Some(Ordering::Less));
    }
}

/// A bearish engulfing detection means: the previous candle does not close at or
/// below its open, the last candle closes below its open, opens above the
/// previous close and closes below the previous open. When prices are totally
/// ordered the last body strictly contains the previous one:
/// `curr.close < prev.open < prev.close < curr.open`.
pub proof fn lemma_bearish_engulfing_covers_previous_body<P: PartialOrd>(
    prev: OhlcBar<P>,
    curr: OhlcBar<P>,
)
    requires
        is_bearish_engulfing(prev, curr),
    ensures
        !prev.close.is_le(&prev.open),
        curr.close.is_lt(&curr.open),
        curr.open.is_gt(&prev.close),
        curr.close.is_lt(&prev.open),
        compares_totally::<P>() ==> curr.close.is_lt(&prev.open) && prev.open.is_lt(&prev.close)
            && prev.close.is_lt(&curr.open),
{
    if compares_totally::<P>() {
        assert(prev.close.partial_cmp_spec(&prev.open) is Some);
        assert(prev.open.partial_cmp_spec(&prev.close) == Some(Ordering::Less));
        assert(prev.close.partial_cmp_spec(&curr.open) == Some(Ordering::Less));
    }
}

/// Under a total order the same two candles never form both a bullish and a
/// bearish engulfing pattern.
pub proof fn lemma_engulfing_patterns_exclude_each_other<P: PartialOrd>(
    prev: OhlcBar<P>,
    curr: OhlcBar<P>,
)
    requires
        compares_totally::<P>(),
    ensures
        !(is_bullish_engulfing(prev, curr) && is_bearish_engulfing(prev, curr)),
{
    assert(curr.close.partial_cmp_spec(&curr.open) is Some);
}

/// Three white soldiers means three bullish candles whose closes rise strictly
/// from one to the next; under a total order the last close is also above the
/// first.
pub proof fn lemma_three_white_soldiers_close_higher<P: PartialOrd>(
    c1: OhlcBar<P>,
    c2: OhlcBar<P>,
    c3: OhlcBar<P>,
)
    requires
        is_three_white_soldiers(c1, c2, c3),
    ensures
        c1.close.is_gt(&c1.open),
        c2.close.is_gt(&c2.open),
        c3.close.is_gt(&c3.open),
        c2.close.is_gt(&c1.close),
        c3.close.is_gt(&c2.close),
        compares_totally::<P>() ==> c3.close.is_gt(&c1.close),
{
    if compares_totally::<P>() {
        assert(c1.close.partial_cmp_spec(&c2.close) == Some(Ordering::Less));
        assert(c2.close.partial_cmp_spec(&c3.close) == Some(Ordering::Less));
        lemma_less_transitive(c1.close, c2.close, c3.close);
        assert(c3.close.partial_cmp_spec(&c1.close) == Some(Ordering::Greater));
    }
}

/// Three black crows means three bearish candles whose closes fall strictly
/// from one to the next; under a total order the last close is also below the
/// first.
pub proof fn lemma_three_black_crows_close_lower<P: PartialOrd>(
    c1: OhlcBar<P>,
    c2: OhlcBar<P>,
    c3: OhlcBar<P>,
)
    requires
        is_three_black_crows(c1, c2, c3),
    ensures
        c1.close.is_lt(&c1.open),
        c2.close.is_lt(&c2.open),
        c3.close.is_lt(&c3.open),
        c2.close.is_lt(&c1.close),
        c3.close.is_lt(&c2.close),
        compares_totally::<P>() ==> c3.close.is_lt(&c1.close),
{
    if compares_totally::<P>() {
        lemma_less_transitive(c3.close, c2.close, c1.close);
    }
}

/// Under a total order the same three candles never form both three white
/// soldiers and three black crows.
pub proof fn lemma_three_candle_patterns_exclude_each_other<P: PartialOrd>(
    c1: OhlcBar<P>,
    c2: OhlcBar<P>,
    c3: OhlcBar<P>,
)
    requires
        compares_totally::<P>(),
    ensures
        !(is_three_white_soldiers(c1, c2, c3) && is_three_black_crows(c1, c2, c3)),
{
    assert(c1.close.partial_cmp_spec(&c1.open) is Some);
}

/// An up fractal means the middle bar's high is strictly above the highs of the
/// two bars before it and the two bars after it (so, under a total order, every
/// other high is below it); a down fractal means the middle high is not above
/// all four others and the middle low is strictly below the four other lows;
/// otherwise there is no fractal.
pub proof fn lemma_fractal_extremes<P: PartialOrd>(
    c1: OhlcBar<P>,
    c2: OhlcBar<P>,
    c3: OhlcBar<P>,
    c4: OhlcBar<P>,
    c5: OhlcBar<P>,
)
    ensures
        fractal_of(c1, c2, c3, c4, c5) == FractalType::Up <==> c3.high.is_gt(&c1.high)
            && c3.high.is_gt(&c2.high) && c3.high.is_gt(&c4.high) && c3.high.is_gt(&c5.high),
        fractal_of(c1, c2, c3, c4, c5) == FractalType::Down ==> c3.low.is_lt(&c1.low)
            && c3.low.is_lt(&c2.low) && c3.low.is_lt(&c4.low) && c3.low.is_lt(&c5.low),
        fractal_of(c1, c2, c3, c4, c5) == FractalType::NoFractal ==> !(c3.high.is_gt(&c1.high)
            && c3.high.is_gt(&c2.high) && c3.high.is_gt(&c4.high) && c3.high.is_gt(&c5.high))
            && !(c3.low.is_lt(&c1.low) && c3.low.is_lt(&c2.low) && c3.low.is_lt(&c4.low)
            && c3.low.is_lt(&c5.low)),
        compares_totally::<P>() && fractal_of(c1, c2, c3, c4, c5) == FractalType::Up
            ==> c1.high.is_lt(&c3.high) && c2.high.is_lt(&c3.high) && c4.high.is_lt(&c3.high)
            && c5.high.is_lt(&c3.high),
{
    if compares_totally::<P>() && fractal_of(c1, c2, c3, c4, c5) == FractalType::Up {
        assert(c1.high.partial_cmp_spec(&c3.high) == Some(Ordering::Less));
        assert(c2.high.partial_cmp_spec(&c3.high) == Some(Ordering::Less));
        assert(c4.high.partial_cmp_spec(&c3.high) == Some(Ordering::Less));
        assert(c5.high.partial_cmp_spec(&c3.high) == Some(Ordering::Less));
    }
}

} // verus!
