//! Utilities shared by the indicators.

pub mod circular_buffer;
pub mod math;
pub mod text;
pub mod window_laws;

pub use circular_buffer::CircularBuffer;
