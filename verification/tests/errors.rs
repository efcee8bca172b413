use velora_ta::{IndicatorError, IndicatorResult};

#[test]
fn test_error_display() {
    let err = IndicatorError::InsufficientData {
        required: 20,
        actual: 10,
    };
    assert_eq!(
        err.to_string(),
        "Insufficient data: need at least 20 data points, got 10"
    );

    let err = IndicatorError::InvalidParameter("period must be > 0".to_string());
    assert_eq!(err.to_string(), "Invalid parameter: period must be > 0");

    let err = IndicatorError::DivisionByZero;
    assert_eq!(err.to_string(), "Division by zero");
}

#[test]
fn every_variant_has_its_prefix() {
    assert_eq!(
        IndicatorError::Calculation("overflow".to_string()).to_string(),
        "Calculation error: overflow"
    );
    assert_eq!(
        IndicatorError::NotInitialized("needs OHLC".to_string()).to_string(),
        "Not initialized: needs OHLC"
    );
    assert_eq!(
        IndicatorError::InvalidPrice("NaN".to_string()).to_string(),
        "Invalid price: NaN"
    );
    assert_eq!(
        IndicatorError::InvalidInput("High must be >= Low".to_string()).to_string(),
        "Invalid input: High must be >= Low"
    );
}

#[test]
fn insufficient_data_writes_numbers_in_decimal() {
    let err = IndicatorError::InsufficientData {
        required: 0,
        actual: 1234567890,
    };
    assert_eq!(
        err.to_string(),
        "Insufficient data: need at least 0 data points, got 1234567890"
    );
    let err = IndicatorError::InsufficientData {
        required: usize::MAX,
        actual: 9,
    };
    assert_eq!(
        err.to_string(),
        format!("Insufficient data: need at least {} data points, got 9", usize::MAX)
    );
}

#[test]
fn errors_compare_and_clone() {
    let result: IndicatorResult<u32> = Err(IndicatorError::DivisionByZero);
    assert_eq!(result.clone(), Err(IndicatorError::DivisionByZero));
    assert_ne!(
        IndicatorError::InvalidInput("a".to_string()),
        IndicatorError::InvalidPrice("a".to_string())
    );
}
