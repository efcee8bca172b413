//! Common types used by technical indicators.

use vstd::prelude::*;

verus! {

/// Which price of an OHLC bar an indicator reads.
#[derive(Debug, Clone, Copy, PartialEq, Eq, Structural)]
pub enum PriceType {
    /// Open price
    Open,
    /// High price
    High,
    /// Low price
    Low,
    /// Close price (the default)
    Close,
    /// Typical price: (High + Low + Close) / 3
    Typical,
    /// Weighted close: (High + Low + Close + Close) / 4
    Weighted,
    /// Average price: (High + Low) / 2
    Average,
    /// Median price: (High + Low) / 2 (same as Average)
    Median,
}

/// An OHLC bar: the open, high, low and close prices of one period.
///
/// The price type is a parameter: the indicators use `f64`, and the
/// comparison-based detectors of this library are verified for every price
/// type, with exact results wherever comparison on the price type is specified
/// (for instance for integer prices in ticks).
#[derive(Debug, Clone, Copy, PartialEq)]
pub struct OhlcBar<P> {
    /// Open price
    pub open: P,
    /// High price
    pub high: P,
    /// Low price
    pub low: P,
    /// Close price
    pub close: P,
}

impl<P> OhlcBar<P> {
    /// Creates a bar from its four prices.
    pub fn new(open: P, high: P, low: P, close: P) -> (bar: Self)
        ensures
            bar == (OhlcBar { open, high, low, close }),
    {
        OhlcBar { open, high, low, close }
    }
}

impl Default for PriceType {
    /// The close price.
    fn default() -> (price_type: Self)
        ensures
            price_type == PriceType::Close,
    {
        PriceType::Close
    }
}

} // verus!
