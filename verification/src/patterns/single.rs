//! Single-candle patterns. Their detection measures bodies and shadows with
//! floating-point arithmetic, so only the detector types and names are here.

use vstd::prelude::*;

verus! {

/// Hammer: small body, small upper shadow, long lower shadow (bullish).
#[derive(Debug, Clone)]
pub struct Hammer;

impl Hammer {
    /// Creates the detector.
    pub fn new() -> (detector: Self) {
        Hammer
    }

    /// The name of the pattern.
    pub fn name(&self) -> (name: &'static str)
        ensures
            name@ == "Hammer"@,
    {
        "Hammer"
    }
}

impl Default for Hammer {
    /// Same as `new`.
    fn default() -> (detector: Self) {
        Hammer::new()
    }
}

/// Shooting star: small body, long upper shadow, small lower shadow (bearish).
#[derive(Debug, Clone)]
pub struct ShootingStar;

impl ShootingStar {
    /// Creates the detector.
    pub fn new() -> (detector: Self) {
        ShootingStar
    }

    /// The name of the pattern.
    pub fn name(&self) -> (name: &'static str)
        ensures
            name@ == "Shooting Star"@,
    {
        "Shooting Star"
    }
}

impl Default for ShootingStar {
    /// Same as `new`.
    fn default() -> (detector: Self) {
        ShootingStar::new()
    }
}

} // verus!
