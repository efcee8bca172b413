//! Bill Williams indicators.

pub mod fractals;

pub use fractals::{FractalType, Fractals};
