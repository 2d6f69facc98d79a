//! Fling prediction for touch gestures.
//!
//! A `GesturePredictor` keeps a short, time-ordered window of touch samples
//! and extrapolates where a released swipe comes to rest under constant
//! deceleration. A `SwipePredictorContext` registers predictors under one
//! physics configuration and hands out `SwipePredictorHandle`s that share
//! ownership of the registry's table, so they stay usable after the
//! registry is gone.
pub mod bridge;
pub mod engine;
pub mod error;
pub mod physics;
pub mod predictor;
pub mod registry;
pub mod types;

pub use bridge::{AndroidState, HandleStorage};
pub use engine::MAX_BUFFER_SIZE;
pub use error::PredictorError;
pub use physics::PhysicsConfig;
pub use predictor::{GesturePredictor, DEFAULT_BUFFER_SIZE, MIN_BUFFER_SIZE};
pub use registry::{PredictorManager, SwipePredictorContext, SwipePredictorHandle, MAX_PREDICTORS};
pub use types::{Point2D, Prediction, Timestamp, TouchPoint, Velocity2D, CONFIDENCE_ONE};
