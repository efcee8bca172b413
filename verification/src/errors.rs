//! Error type of the indicators, and its human-readable messages.

use vstd::prelude::*;

use crate::utils::text::{decimal, push_decimal};

verus! {

/// Result type for indicator operations.
pub type IndicatorResult<T> = Result<T, IndicatorError>;

/// Errors that can occur during indicator calculations.
#[derive(Debug, Clone, PartialEq)]
pub enum IndicatorError {
    /// Insufficient data to calculate the indicator: at least `required` data
    /// points are needed and `actual` are available.
    InsufficientData {
        /// Minimum required data points
        required: usize,
        /// Actual number of data points available
        actual: usize,
    },
    /// Invalid parameter provided to an indicator constructor, such as a period
    /// of zero.
    InvalidParameter(String),
    /// Error during a calculation (a numerical problem).
    Calculation(String),
    /// The indicator was used in a way it does not support yet, or before it
    /// was ready.
    NotInitialized(String),
    /// Invalid price data, such as a negative or non-finite price.
    InvalidPrice(String),
    /// Invalid input data.
    InvalidInput(String),
    /// Division by zero encountered.
    DivisionByZero,
}

impl IndicatorError {
    /// The message of the error, as its `to_string` writes it.
    pub open spec fn message(self) -> Seq<char> {
        match self {
            IndicatorError::InsufficientData { required, actual } => "Insufficient data: need at least "@
                + decimal(required as nat) + " data points, got "@ + decimal(actual as nat),
            IndicatorError::InvalidParameter(msg) => "Invalid parameter: "@ + msg@,
            IndicatorError::Calculation(msg) => "Calculation error: "@ + msg@,
            IndicatorError::NotInitialized(msg) => "Not initialized: "@ + msg@,
            IndicatorError::InvalidPrice(msg) => "Invalid price: "@ + msg@,
            IndicatorError::InvalidInput(msg) => "Invalid input: "@ + msg@,
            IndicatorError::DivisionByZero => "Division by zero"@,
        }
    }

    /// A human-readable description of the error.
    pub fn to_string(&self) -> (text: String)
        ensures
            text@ == self.message(),
    {
        match self {
            IndicatorError::InsufficientData { required, actual } => {
                let mut text = String::from_str("Insufficient data: need at least ");
                push_decimal(&mut text, *required);
                text.append(" data points, got ");
                push_decimal(&mut text, *actual);
                text
            },
            IndicatorError::InvalidParameter(msg) => {
                let mut text = String::from_str("Invalid parameter: ");
                text.append(msg.as_str());
                text
            },
            IndicatorError::Calculation(msg) => {
                let mut text = String::from_str("Calculation error: ");
                text.append(msg.as_str());
                text
            },
            IndicatorError::NotInitialized(msg) => {
                let mut text = String::from_str("Not initialized: ");
                text.append(msg.as_str());
                text
            },
            IndicatorError::InvalidPrice(msg) => {
                let mut text = String::from_str("Invalid price: ");
                text.append(msg.as_str());
                text
            },
            IndicatorError::InvalidInput(msg) => {
                let mut text = String::from_str("Invalid input: ");
                text.append(msg.as_str());
                text
            },
            IndicatorError::DivisionByZero => String::from_str("Division by zero"),
        }
    }
}

} // verus!
