use velora_ta::{
    BearishEngulfing, BullishEngulfing, FractalType, Fractals, Hammer, OhlcBar, PatternSignal,
    ShootingStar, ThreeBlackCrows, ThreeWhiteSoldiers,
};

#[test]
fn test_bullish_engulfing() {
    let pattern = BullishEngulfing::new();
    assert_eq!(pattern.name(), "Bullish Engulfing");
}

#[test]
fn test_three_white_soldiers() {
    let pattern = ThreeWhiteSoldiers::new();
    assert_eq!(pattern.name(), "Three White Soldiers");
}

#[test]
fn test_fractals_creation() {
    let _fractals = Fractals::new();
}

#[test]
fn detector_names() {
    assert_eq!(BearishEngulfing::new().name(), "Bearish Engulfing");
    assert_eq!(Hammer::new().name(), "Hammer");
    assert_eq!(ShootingStar::default().name(), "Shooting Star");
    assert_eq!(ThreeBlackCrows::default().name(), "Three Black Crows");
}

#[test]
fn bullish_engulfing_detection() {
    let pattern = BullishEngulfing::new();
    let bearish = OhlcBar::new(105.0, 106.0, 99.0, 100.0);
    let engulfing = OhlcBar::new(99.0, 108.0, 98.0, 107.0);
    assert_eq!(pattern.detect(&[bearish, engulfing]), Some(PatternSignal::Bullish));
    // too few candles
    assert_eq!(pattern.detect(&[engulfing]), None);
    assert_eq!(pattern.detect::<f64>(&[]), None);
    // previous candle not bearish
    let bullish = OhlcBar::new(100.0, 106.0, 99.0, 105.0);
    assert_eq!(pattern.detect(&[bullish, engulfing]), None);
    // current body does not engulf
    let small = OhlcBar::new(101.0, 104.0, 100.0, 103.0);
    assert_eq!(pattern.detect(&[bearish, small]), None);
}

#[test]
fn bearish_engulfing_detection_with_integer_prices() {
    let pattern = BearishEngulfing::new();
    let bullish = OhlcBar::new(100i64, 106, 99, 105);
    let engulfing = OhlcBar::new(106i64, 107, 98, 99);
    assert_eq!(pattern.detect(&[bullish, engulfing]), Some(PatternSignal::Bearish));
    let doji = OhlcBar::new(100i64, 101, 99, 100);
    assert_eq!(pattern.detect(&[doji, engulfing]), None);
}

#[test]
fn three_candle_patterns() {
    let rising = [
        OhlcBar::new(100.0, 103.0, 99.0, 102.0),
        OhlcBar::new(102.0, 105.0, 101.0, 104.0),
        OhlcBar::new(104.0, 107.0, 103.0, 106.0),
    ];
    assert_eq!(ThreeWhiteSoldiers::new().detect(&rising), Some(PatternSignal::Bullish));
    assert_eq!(ThreeBlackCrows::new().detect(&rising), None);
    let falling = [
        OhlcBar::new(106, 107, 103, 104),
        OhlcBar::new(104, 105, 101, 102),
        OhlcBar::new(102, 103, 99, 100),
    ];
    assert_eq!(ThreeBlackCrows::new().detect(&falling), Some(PatternSignal::Bearish));
    assert_eq!(ThreeWhiteSoldiers::new().detect(&falling), None);
    assert_eq!(ThreeWhiteSoldiers::new().detect(&rising[1..]), None);
}

#[test]
fn fractal_detection() {
    let fractals = Fractals::new();
    let bar = |high: f64, low: f64| OhlcBar::new(low, high, low, high);
    let up = [bar(10.0, 5.0), bar(11.0, 6.0), bar(15.0, 7.0), bar(12.0, 6.0), bar(11.0, 5.0)];
    assert_eq!(fractals.detect(&up), Ok(FractalType::Up));
    let down = [bar(10.0, 5.0), bar(9.0, 4.0), bar(8.0, 1.0), bar(9.0, 3.0), bar(10.0, 4.0)];
    assert_eq!(fractals.detect(&down), Ok(FractalType::Down));
    let flat = [bar(10.0, 5.0); 5];
    assert_eq!(fractals.detect(&flat), Ok(FractalType::NoFractal));
    assert_eq!(fractals.detect(&up[..4]), Ok(FractalType::NoFractal));
}
