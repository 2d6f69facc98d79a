use swipe_predictor::{
    GesturePredictor, PhysicsConfig, Point2D, Prediction, PredictorError, Velocity2D,
    TouchPoint, MAX_BUFFER_SIZE, MIN_BUFFER_SIZE,
};

#[test]
fn test_basic_prediction() {
    let config = PhysicsConfig::default();
    let mut predictor = GesturePredictor::new(config).unwrap();

    // Add points moving horizontally at 1000 px/s
    for i in 0..6 {
        let _ = predictor.add_touch_point(i * 20, 0, i as i64 * 20);
    }

    let prediction = predictor.predict().unwrap();
    assert!(prediction.position.x > 100);
    assert!(prediction.confidence > 0);
}

#[test]
fn test_insufficient_data() {
    let config = PhysicsConfig::default();
    let mut predictor = GesturePredictor::new(config).unwrap();

    let _ = predictor.add_touch_point(0, 0, 0);

    let result = predictor.predict();
    assert!(matches!(
        result,
        Err(PredictorError::InsufficientData { required: 2, actual: 1 })
    ));
}

#[test]
fn predictor_test_timestamp_validation() {
    let config = PhysicsConfig::default();
    let mut predictor = GesturePredictor::new(config).unwrap();

    // Valid timestamp
    assert!(predictor.add_touch_point(0, 0, 0).is_ok());

    // Invalid negative timestamp
    assert!(predictor.add_touch_point(10, 0, -10).is_err());

    // Out of order timestamp
    assert!(predictor.add_touch_point(20, 0, 10).is_ok());
    assert!(predictor.add_touch_point(30, 0, 5).is_err());
}

#[test]
fn test_gesture_cancellation() {
    let config = PhysicsConfig::default();
    let mut predictor = GesturePredictor::new(config).unwrap();

    // Moving forward
    let _ = predictor.add_touch_point(0, 0, 0);
    let _ = predictor.add_touch_point(10, 0, 10);
    let _ = predictor.add_touch_point(20, 0, 20);

    assert!(!predictor.detect_cancellation());

    // Reverse direction
    let _ = predictor.add_touch_point(15, 0, 30);

    assert!(predictor.detect_cancellation());
}

#[test]
fn test_buffer_size_limits() {
    let config = PhysicsConfig::default();

    let predictor = GesturePredictor::with_buffer_size(config, 0).unwrap();
    assert_eq!(predictor.buffer_size(), MIN_BUFFER_SIZE);

    let predictor = GesturePredictor::with_buffer_size(config, 1000).unwrap();
    assert_eq!(predictor.buffer_size(), MAX_BUFFER_SIZE);

    let predictor = GesturePredictor::with_buffer_size(config, 20).unwrap();
    assert_eq!(predictor.buffer_size(), 20);
}

#[test]
fn test_reset() {
    let config = PhysicsConfig::default();
    let mut predictor = GesturePredictor::new(config).unwrap();

    let _ = predictor.add_touch_point(0, 0, 0);
    let _ = predictor.add_touch_point(10, 0, 10);

    assert_eq!(predictor.point_count(), 2);
    assert!(predictor.is_active());

    predictor.reset();

    assert_eq!(predictor.point_count(), 0);
    assert!(!predictor.is_active());
}

#[test]
fn test_empty_buffer_handling() {
    let config = PhysicsConfig::default();
    let mut predictor = GesturePredictor::new(config).unwrap();

    // Test predict with empty buffer
    let result = predictor.predict();
    assert!(matches!(result, Err(PredictorError::InsufficientData { .. })));

    // Test calculate_weighted_velocity with empty buffer
    let velocity_result = predictor.calculate_weighted_velocity();
    assert!(matches!(velocity_result, Err(PredictorError::InsufficientData { .. })));

    // Test is_gesture_decelerating with empty buffer
    assert!(!predictor.is_gesture_decelerating());

    // Test detect_cancellation with empty buffer
    assert!(!predictor.detect_cancellation());

    // Add only one point
    let _ = predictor.add_touch_point(0, 0, 0);

    // Still insufficient for prediction
    let result = predictor.predict();
    assert!(matches!(result, Err(PredictorError::InsufficientData { .. })));

    // Still insufficient for velocity calculation
    let velocity_result = predictor.calculate_weighted_velocity();
    assert!(matches!(velocity_result, Err(PredictorError::InsufficientData { .. })));
}

#[test]
fn test_get_last_point_safe() {
    let config = PhysicsConfig::default();
    let mut predictor = GesturePredictor::new(config).unwrap();

    // Test with multiple points
    for i in 0..5 {
        let _ = predictor.add_touch_point(i * 10, 0, i as i64 * 10);
    }

    // This should work without panic
    let prediction = predictor.predict();
    assert!(prediction.is_ok());

    // Reset to empty
    predictor.reset();

    // This should handle empty buffer gracefully
    let prediction = predictor.predict();
    assert!(matches!(prediction, Err(PredictorError::InsufficientData { .. })));
}

#[test]
fn test_gesture_predictor_basic() {
    let mut predictor = GesturePredictor::new(PhysicsConfig::default()).unwrap();

    let _ = predictor.add_touch_point(0, 0, 0);
    let _ = predictor.add_touch_point(20, 0, 20);
    let _ = predictor.add_touch_point(40, 0, 40);
    let _ = predictor.add_touch_point(60, 0, 60);
    let _ = predictor.add_touch_point(80, 0, 80);
    let _ = predictor.add_touch_point(100, 0, 100);

    let prediction = predictor.get_prediction();
    assert!(prediction.is_some(), "Prediction should exist");

    let pred = prediction.unwrap();
    assert!(pred.position.x > 100, "Predicted x ({}) should be > 100", pred.position.x);
    assert!(pred.confidence > 0, "Confidence ({}) should be > 0", pred.confidence);
}

#[test]
fn test_low_velocity_no_prediction() {
    let mut predictor = GesturePredictor::new(PhysicsConfig::default()).unwrap();

    let _ = predictor.add_touch_point(0, 0, 0);
    let _ = predictor.add_touch_point(1, 0, 100);
    let _ = predictor.add_touch_point(2, 0, 200);

    let prediction = predictor.get_prediction();
    assert!(prediction.is_none());
}

#[test]
fn test_gesture_cancellation_detection() {
    let mut predictor = GesturePredictor::new(PhysicsConfig::default()).unwrap();

    let _ = predictor.add_touch_point(0, 0, 0);
    let _ = predictor.add_touch_point(10, 0, 10);
    let _ = predictor.add_touch_point(20, 0, 20);
    let _ = predictor.add_touch_point(15, 0, 30);

    assert!(predictor.detect_cancellation());
}

#[test]
fn test_straightness_score() {
    let mut predictor = GesturePredictor::new(PhysicsConfig::default()).unwrap();

    let _ = predictor.add_touch_point(0, 0, 0);
    let _ = predictor.add_touch_point(10, 0, 10);
    let _ = predictor.add_touch_point(20, 0, 20);
    let _ = predictor.add_touch_point(30, 0, 30);

    let score = predictor.calculate_straightness_score();
    assert!(score > 950_000);

    let mut curved_predictor = GesturePredictor::new(PhysicsConfig::default()).unwrap();
    let _ = curved_predictor.add_touch_point(0, 0, 0);
    let _ = curved_predictor.add_touch_point(10, 5, 10);
    let _ = curved_predictor.add_touch_point(20, 0, 20);
    let _ = curved_predictor.add_touch_point(30, -5, 30);

    let curved_score = curved_predictor.calculate_straightness_score();
    assert!(curved_score < score);
}

#[test]
fn test_reset_predictor() {
    let mut predictor = GesturePredictor::new(PhysicsConfig::default()).unwrap();

    let _ = predictor.add_touch_point(0, 0, 0);
    let _ = predictor.add_touch_point(10, 0, 10);

    predictor.reset();

    assert_eq!(predictor.point_count(), 0);
    assert!(predictor.gesture_start_time().is_none());
    assert!(predictor.get_prediction().is_none());
}

#[test]
fn lib_test_timestamp_validation() {
    let mut predictor = GesturePredictor::new(PhysicsConfig::default()).unwrap();

    // Test with proper millisecond timestamps
    let _ = predictor.add_touch_point(0, 0, 0);
    let _ = predictor.add_touch_point(10, 0, 10);
    let _ = predictor.add_touch_point(20, 0, 20);
    let _ = predictor.add_touch_point(30, 0, 30);
    let _ = predictor.add_touch_point(40, 0, 40);

    let prediction = predictor.get_prediction();
    assert!(prediction.is_some());

    // Test with zero dt (identical timestamps)
    let mut predictor2 = GesturePredictor::new(PhysicsConfig::default()).unwrap();
    let _ = predictor2.add_touch_point(0, 0, 100);
    let _ = predictor2.add_touch_point(10, 0, 100); // Same timestamp
    let _ = predictor2.add_touch_point(20, 0, 100); // Same timestamp
    let _ = predictor2.add_touch_point(30, 0, 150);

    // Should still work, but with reduced confidence
    let prediction2 = predictor2.get_prediction();
    assert!(prediction2.is_some());
}

#[test]
fn lib_test_physics_config_validation() {
    // Valid config
    let valid_config = PhysicsConfig::default();
    assert!(valid_config.validate().is_ok());

    // Invalid deceleration rate
    let mut config = PhysicsConfig::default();
    config.deceleration_rate = -100;
    assert!(config.validate().is_err());

    // Invalid velocity threshold
    config = PhysicsConfig::default();
    config.min_velocity_threshold = -1;
    assert!(config.validate().is_err());

    // Invalid gesture time
    config = PhysicsConfig::default();
    config.min_gesture_time_ms = -10;
    assert!(config.validate().is_err());
}

#[test]
fn test_timestamp_ordering() {
    let mut predictor = GesturePredictor::new(PhysicsConfig::default()).unwrap();

    // Add points with increasing timestamps
    let _ = predictor.add_touch_point(0, 0, 0);
    let _ = predictor.add_touch_point(10, 0, 10);

    // Try to add a point with timestamp going backwards
    let _ = predictor.add_touch_point(20, 0, 5); // Should be ignored

    // Add a valid point
    let _ = predictor.add_touch_point(30, 0, 20);

    // Should only have 3 points (the backwards one was ignored)
    assert_eq!(predictor.point_count(), 3);
    assert_eq!(predictor.point_at(2).unwrap().position.x, 30);
}

#[test]
fn test_division_by_zero_protection() {
    let mut predictor = GesturePredictor::new(PhysicsConfig::default()).unwrap();

    // Add points with zero velocity (same position)
    let _ = predictor.add_touch_point(10, 10, 0);
    let _ = predictor.add_touch_point(10, 10, 50);
    let _ = predictor.add_touch_point(10, 10, 100);

    // Should not panic and return None due to zero velocity
    let prediction = predictor.get_prediction();
    assert!(prediction.is_none());
}

#[test]
fn test_buffer_size_validation() {
    let config = PhysicsConfig::default();

    // Test minimum buffer size
    let predictor1 = GesturePredictor::with_buffer_size(config, 0).unwrap();
    assert_eq!(predictor1.buffer_size(), MIN_BUFFER_SIZE);

    // Test maximum buffer size
    let predictor2 = GesturePredictor::with_buffer_size(config, 1000).unwrap();
    assert_eq!(predictor2.buffer_size(), MAX_BUFFER_SIZE);

    // Test normal buffer size
    let predictor3 = GesturePredictor::with_buffer_size(config, 20).unwrap();
    assert_eq!(predictor3.buffer_size(), 20);
}

#[test]
fn test_physics_config_edge_cases() {
    // Test zero deceleration rate
    let mut config = PhysicsConfig::default();
    config.deceleration_rate = 0;
    assert!(config.validate().is_err());

    // Test negative deceleration rate
    config.deceleration_rate = -100;
    assert!(config.validate().is_err());

    // Test edge case values: the smallest positive rate
    config = PhysicsConfig {
        deceleration_rate: 1,
        min_velocity_threshold: 0,
        min_gesture_time_ms: 0,
    };
    assert!(config.validate().is_ok());
}

#[test]
fn test_velocity_calculation_without_allocation() {
    let mut predictor = GesturePredictor::new(PhysicsConfig::default()).unwrap();

    // Add many points to test performance
    for i in 0..100 {
        let _ = predictor.add_touch_point(i, i, i as i64 * 10);
    }

    let velocity = predictor.calculate_weighted_velocity();
    assert!(velocity.is_ok());
}

// ---- exact values ----

fn fling_samples(predictor: &mut GesturePredictor) {
    for (x, y, t) in [(0, 0, 0), (20, 0, 20), (40, 0, 40), (60, 0, 60), (80, 0, 80), (100, 0, 100)] {
        predictor.add_touch_point(x, y, t).unwrap();
    }
}

#[test]
fn end_to_end_fling_scenario() {
    let mut predictor = GesturePredictor::new(PhysicsConfig::new(1500, 50, 30).unwrap()).unwrap();
    fling_samples(&mut predictor);
    let prediction = predictor.predict().unwrap();
    assert!(prediction.position.x > 100);
    assert_eq!(prediction.position.y, 0);
    assert!(prediction.confidence > 0);
    // 100 + 1000·1000/3000; confidence = 1 · 0.7 · 1 · 1
    assert_eq!(prediction, Prediction { position: Point2D::new(433, 0), confidence: 700_000 });
}

#[test]
fn weighted_velocity_favours_recent_pairs() {
    let mut predictor = GesturePredictor::new(PhysicsConfig::default()).unwrap();
    for (x, t) in [(0, 0), (5, 50), (15, 100), (35, 150), (65, 200)] {
        predictor.add_touch_point(x, 0, t).unwrap();
    }
    // (100·1 + 200·4 + 400·9 + 600·16) / 30
    assert_eq!(predictor.calculate_weighted_velocity(), Ok(Velocity2D::new(470, 0)));
}

#[test]
fn zero_velocity_rejection_scenario() {
    let mut predictor = GesturePredictor::new(PhysicsConfig::default()).unwrap();
    predictor.add_touch_point(10, 10, 0).unwrap();
    predictor.add_touch_point(10, 10, 50).unwrap();
    predictor.add_touch_point(10, 10, 100).unwrap();
    assert_eq!(
        predictor.predict(),
        Err(PredictorError::VelocityTooLow { velocity: 0, minimum: 50 })
    );
    assert!(predictor.get_prediction().is_none());
}

#[test]
fn simultaneous_samples_give_numerical_error() {
    let mut predictor = GesturePredictor::new(PhysicsConfig::new(1500, 50, 0).unwrap()).unwrap();
    predictor.add_touch_point(0, 0, 100).unwrap();
    predictor.add_touch_point(10, 0, 100).unwrap();
    assert_eq!(
        predictor.predict(),
        Err(PredictorError::NumericalError {
            operation: "velocity calculation",
            details: "no valid velocity measurements"
        })
    );
}

#[test]
fn short_gesture_is_refused() {
    let mut predictor = GesturePredictor::new(PhysicsConfig::default()).unwrap();
    predictor.add_touch_point(0, 0, 0).unwrap();
    predictor.add_touch_point(10, 0, 20).unwrap();
    assert_eq!(
        predictor.predict(),
        Err(PredictorError::GestureTooShort { duration_ms: 20, minimum_ms: 30 })
    );
}

#[test]
fn order_rejection_scenario() {
    let mut predictor = GesturePredictor::new(PhysicsConfig::default()).unwrap();
    predictor.add_touch_point(0, 0, 0).unwrap();
    predictor.add_touch_point(0, 0, 10).unwrap();
    assert_eq!(
        predictor.add_touch_point(0, 0, 5),
        Err(PredictorError::TimestampOutOfOrder { previous: 10, current: 5 })
    );
    assert_eq!(predictor.point_count(), 2);
    // equal timestamps are accepted
    assert!(predictor.add_touch_point(1, 0, 10).is_ok());
    assert_eq!(predictor.point_count(), 3);
}

#[test]
fn negative_timestamp_is_refused() {
    let mut predictor = GesturePredictor::new(PhysicsConfig::default()).unwrap();
    assert_eq!(
        predictor.add_touch_point(1, 1, -1),
        Err(PredictorError::InvalidTimestamp {
            timestamp: -1,
            reason: "must be non-negative and finite"
        })
    );
    assert!(!predictor.is_active());
    assert!(predictor.gesture_start_time().is_none());
}

#[test]
fn window_keeps_most_recent_samples_and_start_time() {
    let mut predictor = GesturePredictor::with_buffer_size(PhysicsConfig::default(), 3).unwrap();
    for i in 0..7 {
        predictor.add_touch_point(i * 10, 0, i as i64 * 5).unwrap();
        assert_eq!(predictor.point_count(), std::cmp::min(3, i as usize + 1));
    }
    assert_eq!(predictor.point_at(0).unwrap().position.x, 40);
    assert_eq!(predictor.point_at(1).unwrap().position.x, 50);
    assert_eq!(predictor.point_at(2).unwrap().position.x, 60);
    assert!(predictor.point_at(3).is_none());
    assert_eq!(predictor.gesture_start_time(), Some(0));
}

#[test]
fn straightness_exact_values() {
    let mut short = GesturePredictor::new(PhysicsConfig::default()).unwrap();
    short.add_touch_point(0, 0, 0).unwrap();
    short.add_touch_point(5, 9, 10).unwrap();
    assert_eq!(short.calculate_straightness_score(), 1_000_000);

    let mut round_trip = GesturePredictor::new(PhysicsConfig::default()).unwrap();
    round_trip.add_touch_point(0, 0, 0).unwrap();
    round_trip.add_touch_point(10, 0, 10).unwrap();
    round_trip.add_touch_point(0, 0, 20).unwrap();
    assert_eq!(round_trip.calculate_straightness_score(), 0);

    let mut curved = GesturePredictor::new(PhysicsConfig::default()).unwrap();
    curved.add_touch_point(0, 0, 0).unwrap();
    curved.add_touch_point(10, 5, 10).unwrap();
    curved.add_touch_point(20, 0, 20).unwrap();
    curved.add_touch_point(30, -5, 30).unwrap();
    // 30413 / (3 · 11180) in parts per million
    assert_eq!(curved.calculate_straightness_score(), 906_768);
}

fn slowing_samples(predictor: &mut GesturePredictor) {
    for (x, t) in [(0, 0), (100, 10), (180, 20), (240, 30), (280, 40)] {
        predictor.add_touch_point(x, 0, t).unwrap();
    }
}

#[test]
fn deceleration_halves_confidence_and_can_cancel() {
    let mut predictor = GesturePredictor::new(PhysicsConfig::new(1500, 20000, 0).unwrap()).unwrap();
    slowing_samples(&mut predictor);
    assert!(predictor.is_gesture_decelerating());
    // no reversal, but slowing and below half the minimum speed
    assert!(predictor.detect_cancellation());

    let mut steady = GesturePredictor::new(PhysicsConfig::new(1500, 20000, 0).unwrap()).unwrap();
    for (x, t) in [(0, 0), (100, 10), (200, 20), (300, 30), (400, 40)] {
        steady.add_touch_point(x, 0, t).unwrap();
    }
    assert!(!steady.is_gesture_decelerating());
    assert!(!steady.detect_cancellation());

    let mut lenient = GesturePredictor::new(PhysicsConfig::new(1500, 50, 0).unwrap()).unwrap();
    slowing_samples(&mut lenient);
    assert!(!lenient.detect_cancellation());
    let prediction = lenient.predict().unwrap();
    // speed 5333 px/s; duration factor 0.4; straight; slowing: halved
    assert_eq!(prediction.confidence, 200_000);
}

#[test]
fn extreme_inputs_stay_in_range() {
    let config = PhysicsConfig::new(1, 0, 0).unwrap();
    let mut predictor = GesturePredictor::with_buffer_size(config, 100).unwrap();
    for i in 0..100 {
        let x = if i % 2 == 0 { i32::MIN } else { i32::MAX };
        predictor.add_touch_point(x, i32::MAX, i as i64).unwrap();
    }
    assert_eq!(predictor.point_count(), MAX_BUFFER_SIZE);
    let prediction = predictor.predict().unwrap();
    assert_eq!(prediction.position.x, i64::MAX);
    assert_eq!(prediction.position.y, i32::MAX as i64);
    assert!(predictor.detect_cancellation());

    let mut late = GesturePredictor::new(PhysicsConfig::default()).unwrap();
    late.add_touch_point(0, 0, 0).unwrap();
    late.add_touch_point(i32::MAX, i32::MIN, i64::MAX).unwrap();
    assert_eq!(
        late.predict(),
        Err(PredictorError::VelocityTooLow { velocity: 0, minimum: 50 })
    );
}

#[test]
fn batch_intake_keeps_the_last_window() {
    let mut predictor = GesturePredictor::with_buffer_size(PhysicsConfig::default(), 4).unwrap();
    let points: Vec<TouchPoint> =
        (0..9).map(|i| TouchPoint::new(i * 3, -i, (i as i64) * 7).unwrap()).collect();
    assert_eq!(predictor.add_touch_points(&points), 9);
    assert_eq!(predictor.point_count(), 4);
    for k in 0..4 {
        assert_eq!(predictor.point_at(k).unwrap(), points[5 + k]);
    }
    assert_eq!(predictor.gesture_start_time(), Some(0));

    // a sample out of order is refused and the rest go on
    let late = vec![
        TouchPoint::new(0, 0, 70).unwrap(),
        TouchPoint::new(1, 0, 60).unwrap(),
        TouchPoint::new(2, 0, 80).unwrap(),
    ];
    assert_eq!(predictor.add_touch_points(&late), 2);
    assert_eq!(predictor.point_at(3).unwrap(), late[2]);
}

#[test]
fn batch_intake_of_nothing_changes_nothing() {
    let mut predictor = GesturePredictor::new(PhysicsConfig::default()).unwrap();
    assert_eq!(predictor.add_touch_points(&Vec::new()), 0);
    assert!(!predictor.is_active());
}
