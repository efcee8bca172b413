# velora_ta

Technical-analysis building blocks for trading systems.

- `src/` is the verified library (Verus). It holds the fixed-capacity sliding
  window `CircularBuffer` that windowed indicators are built on (with its
  iterator, sum, maximum and minimum), the `IndicatorError` type and its
  messages, period validation, the `Indicator` trait, `PriceType`, generic
  `OhlcBar<P>` bars, and the pattern and fractal detectors that only compare
  prices. `src/utils/window_laws.rs` states and proves the laws of the window
  across operations.
- `app/` holds the indicators themselves (moving averages, oscillators,
  volatility and volume indicators, statistics). They compute with `f64` and
  carry `chrono` timestamps and `serde` derives, so they are ordinary Rust built
  on the verified window.
- `tests/` exercises the library on concrete values.
