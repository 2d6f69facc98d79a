//! The failures that the library reports. None of them is fatal: each
//! leaves the state it was raised on as it was.
use vstd::prelude::*;

verus! {

#[derive(Debug, Clone, PartialEq)]
pub enum PredictorError {
    /// Fewer samples than the operation needs.
    InsufficientData { required: usize, actual: usize },
    /// A sample's timestamp is negative; the sample was dropped.
    InvalidTimestamp { timestamp: i64, reason: &'static str },
    /// A sample's timestamp precedes the last buffered one; the sample was dropped.
    TimestampOutOfOrder { previous: i64, current: i64 },
    /// The gesture has lasted less than the configured minimum.
    GestureTooShort { duration_ms: i64, minimum_ms: i64 },
    /// The estimated speed (px/s, rounded down) is below the configured minimum.
    VelocityTooLow { velocity: i64, minimum: i64 },
    /// A physics parameter is out of range.
    InvalidConfiguration { field: &'static str, value: i64, reason: &'static str },
    /// No pair of samples is far enough apart in time to give a velocity.
    NumericalError { operation: &'static str, details: &'static str },
    /// The registry already holds as many predictors as it may.
    CapacityExceeded { limit: usize },
    /// No predictor is registered under this id.
    PredictorNotFound { id: u64 },
}

} // verus!
