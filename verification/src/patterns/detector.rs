//! The signal a pattern detector reports.

use vstd::prelude::*;

verus! {

/// Signal from a pattern detection.
#[derive(Debug, Clone, Copy, PartialEq, Eq, Structural)]
pub enum PatternSignal {
    /// Bullish pattern detected
    Bullish,
    /// Bearish pattern detected
    Bearish,
    /// Neutral pattern detected
    Neutral,
}

} // verus!
