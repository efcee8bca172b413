//! The trait that every technical indicator implements.

use vstd::prelude::*;

verus! {

/// Functionality common to all technical indicators, whether they output one
/// value or several.
pub trait Indicator: Send + Sync {
    /// Human-readable name of the indicator, such as `SMA(20)`.
    fn name(&self) -> &str;

    /// Minimum number of data points required before the indicator produces
    /// output (its warmup or look-back period).
    fn warmup_period(&self) -> usize;

    /// Whether the indicator has received enough data to produce output.
    fn is_ready(&self) -> bool;

    /// Resets the indicator to the state it had when it was constructed.
    fn reset(&mut self);
}

} // verus!
