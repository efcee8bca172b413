//! Streaming technical-analysis building blocks with machine-checked contracts.
//!
//! The library holds the parts of a technical-analysis toolkit that are about
//! integers, sequences and text: the fixed-capacity sliding window that every
//! windowed indicator is built on, the error type that indicators report, period
//! validation, the `Indicator` trait, OHLC bars over any price type, and the
//! candlestick-pattern and fractal detectors that only compare prices.

pub mod errors;
pub mod patterns;
pub mod traits;
pub mod types;
pub mod utils;
pub mod williams;

pub use errors::{IndicatorError, IndicatorResult};
pub use patterns::{
    BearishEngulfing, BullishEngulfing, Hammer, PatternSignal, ShootingStar, ThreeBlackCrows,
    ThreeWhiteSoldiers,
};
pub use traits::Indicator;
pub use types::{OhlcBar, PriceType};
pub use utils::math::is_valid_period;
pub use utils::text::indicator_name;
pub use utils::CircularBuffer;
pub use williams::{FractalType, Fractals};
