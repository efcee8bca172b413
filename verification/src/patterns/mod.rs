//! Candlestick pattern detectors: their signals and the detectors themselves.

pub mod detector;
pub mod laws;
pub mod double;
pub mod single;
pub mod triple;

pub use detector::PatternSignal;
pub use double::{BearishEngulfing, BullishEngulfing};
pub use single::{Hammer, ShootingStar};
pub use triple::{ThreeBlackCrows, ThreeWhiteSoldiers};
