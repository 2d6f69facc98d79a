use swipe_predictor::{Point2D, Prediction, Timestamp, TouchPoint, Velocity2D};

#[test]
fn test_point2d_operations() {
    let pa = Point2D::new(3, 4);
    let pb = Point2D::new(6, 8);

    assert_eq!(pa.magnitude(), 5);
    assert_eq!(pa.distance_to(&pb), 5);

    let pc = pb - pa;
    assert_eq!(pc.x, 3);
    assert_eq!(pc.y, 4);

    let pd = pa * 2;
    assert_eq!(pd.x, 6);
    assert_eq!(pd.y, 8);
}

#[test]
fn types_test_timestamp_validation() {
    let t1 = Timestamp::new(100);
    assert!(t1.is_valid());

    let t2 = Timestamp::new(-50);
    assert!(!t2.is_valid());

    let t3 = Timestamp::new(i64::MIN);
    assert!(!t3.is_valid());
}

#[test]
fn test_velocity_from_points() {
    let pa = Point2D::new(0, 0);
    let pb = Point2D::new(100, 0);

    let v = Velocity2D::from_points_and_time(pa, pb, 100).unwrap();
    assert_eq!(v.x, 1000); // 100 pixels / 0.1 seconds = 1000 px/s
    assert_eq!(v.y, 0);
    assert_eq!(v.speed(), 1000);
}

#[test]
fn velocity_rounds_toward_zero_both_ways() {
    let a = Point2D::new(0, 0);
    let b = Point2D::new(10, -10);
    let v = Velocity2D::from_points_and_time(a, b, 30).unwrap();
    assert_eq!(v.x, 333);
    assert_eq!(v.y, -333);
    assert!(Velocity2D::from_points_and_time(a, b, 0).is_none());
    assert!(Velocity2D::from_points_and_time(a, b, -5).is_none());
}

#[test]
fn distance_rounds_down() {
    let a = Point2D::new(0, 0);
    let b = Point2D::new(1, 1);
    assert_eq!(a.distance_to(&b), 1);
    assert_eq!(Point2D::new(10, 5).magnitude(), 11);
    assert_eq!(Point2D::new(i64::MIN, i64::MIN).magnitude(), 13043817825332782212);
}

#[test]
fn timestamp_duration_since() {
    let a = Timestamp::new(40);
    let b = Timestamp::new(100);
    assert_eq!(b.duration_since(&a), Some(60));
    assert_eq!(a.duration_since(&b), None);
    assert_eq!(a.as_millis(), 40);
}

#[test]
fn touch_point_rejects_negative_time() {
    assert!(TouchPoint::new(1, 2, -1).is_none());
    let p = TouchPoint::new(1, 2, 0).unwrap();
    assert_eq!(p.position, Point2D::new(1, 2));
    assert_eq!(p.timestamp, Timestamp::new(0));
}

#[test]
fn prediction_clamps_confidence() {
    let at = Point2D::new(5, 6);
    assert_eq!(Prediction::new(at, -3).confidence, 0);
    assert_eq!(Prediction::new(at, 2_000_000).confidence, 1_000_000);
    assert_eq!(Prediction::new(at, 420_000).confidence, 420_000);
}
