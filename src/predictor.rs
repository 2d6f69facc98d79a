//! A stateful predictor: a bounded, time-ordered window of samples, the
//! physics configuration it predicts with, and the gesture's start time.
use vstd::prelude::*;
use std::collections::VecDeque;
use crate::engine::{
    calculate_confidence, calculate_straightness_score, calculate_weighted_velocity, cancelled,
    confidence, decelerating, detect_cancellation_in, is_gesture_decelerating, samples_ok,
    straightness, weighted_velocity, MAX_BUFFER_SIZE,
};
use crate::error::PredictorError;
use crate::physics::{saturate, PhysicsConfig};
use crate::types::{floor_sqrt, norm_sq, Point2D, Prediction, TouchPoint, Velocity2D, CONFIDENCE_ONE};

verus! {

/// Fewest samples a window may be sized for.
pub const MIN_BUFFER_SIZE: usize = 2;

/// Window size of a predictor made by `GesturePredictor::new`.
pub const DEFAULT_BUFFER_SIZE: usize = 10;

/// The abstract state of a predictor.
pub struct PredictorModel {
    /// The buffered samples, oldest first.
    pub samples: Seq<TouchPoint>,
    /// How many samples the window keeps.
    pub capacity: nat,
    pub config: PhysicsConfig,
    /// Timestamp of the first sample accepted since creation or reset.
    pub start_time: Option<i64>,
}

/// Timestamps never decrease along the window.
pub open spec fn time_ordered(s: Seq<TouchPoint>) -> bool {
    forall|i: int, j: int|
        0 <= i <= j < s.len() ==> #[trigger] s[i].timestamp.0 <= #[trigger] s[j].timestamp.0
}

/// `s` with `p` appended, after evicting the oldest sample if `s` is full.
pub open spec fn window_push(s: Seq<TouchPoint>, p: TouchPoint, capacity: nat) -> Seq<TouchPoint> {
    if s.len() >= capacity {
        s.drop_first().push(p)
    } else {
        s.push(p)
    }
}

/// The sample that `add_touch_point(x, y, t)` buffers.
pub open spec fn sample_of(x: i32, y: i32, t: i64) -> TouchPoint {
    TouchPoint {
        position: Point2D { x: x as i64, y: y as i64 },
        timestamp: crate::types::Timestamp(t),
    }
}

impl PredictorModel {
    pub open spec fn wf(self) -> bool {
        &&& MIN_BUFFER_SIZE <= self.capacity <= MAX_BUFFER_SIZE
        &&& self.samples.len() <= self.capacity
        &&& samples_ok(self.samples)
        &&& time_ordered(self.samples)
        &&& self.config.valid()
        &&& (self.samples.len() == 0 <==> self.start_time.is_none())
        &&& (self.start_time matches Some(t) ==> 0 <= t <= self.samples[0].timestamp.0)
    }

    /// A predictor with no samples.
    pub open spec fn empty(config: PhysicsConfig, capacity: nat) -> PredictorModel {
        PredictorModel { samples: Seq::empty(), capacity, config, start_time: None }
    }

    /// The state and the result after offering the sample `(x, y, t)`.
    pub open spec fn add_point(self, x: i32, y: i32, t: i64) -> (PredictorModel, Result<
        (),
        PredictorError,
    >) {
        if t < 0 {
            (
                self,
                Err(
                    PredictorError::InvalidTimestamp {
                        timestamp: t,
                        reason: "must be non-negative and finite",
                    },
                ),
            )
        } else if self.samples.len() > 0 && t < self.samples.last().timestamp.0 {
            (
                self,
                Err(
                    PredictorError::TimestampOutOfOrder {
                        previous: self.samples.last().timestamp.0,
                        current: t,
                    },
                ),
            )
        } else {
            (
                PredictorModel {
                    samples: window_push(self.samples, sample_of(x, y, t), self.capacity),
                    start_time: if self.start_time.is_none() {
                        Some(t)
                    } else {
                        self.start_time
                    },
                    ..self
                },
                Ok(()),
            )
        }
    }

    /// Milliseconds from the gesture's start to its last sample.
    pub open spec fn duration(self) -> int {
        match self.start_time {
            Some(start) => self.samples.last().timestamp.0 - start,
            None => 0,
        }
    }

    /// What `predict` returns in this state.
    pub open spec fn prediction(self) -> Result<Prediction, PredictorError> {
        let s = self.samples;
        if s.len() < 2 {
            Err(PredictorError::InsufficientData { required: 2, actual: s.len() as usize })
        } else if self.duration() < self.config.min_gesture_time_ms {
            Err(
                PredictorError::GestureTooShort {
                    duration_ms: self.duration() as i64,
                    minimum_ms: self.config.min_gesture_time_ms,
                },
            )
        } else {
            match weighted_velocity(s) {
                Err(e) => Err(e),
                Ok(v) => match self.config.stopping_distance(v.x as int, v.y as int) {
                    Err(e) => Err(e),
                    Ok((dx, dy, _)) => Ok(
                        Prediction {
                            position: Point2D {
                                x: saturate(s.last().position.x + dx) as i64,
                                y: saturate(s.last().position.y + dy) as i64,
                            },
                            confidence: confidence(
                                s,
                                self.config,
                                floor_sqrt(norm_sq(v.x as int, v.y as int) as nat) as int,
                                self.duration(),
                            ) as u32,
                        },
                    ),
                },
            }
        }
    }
}

/// The state after offering each of `pts` in turn.
pub open spec fn feed(m: PredictorModel, pts: Seq<TouchPoint>) -> PredictorModel
    decreases pts.len(),
{
    if pts.len() == 0 {
        m
    } else {
        let p = pts.last();
        feed(m, pts.drop_last()).add_point(
            p.position.x as i32,
            p.position.y as i32,
            p.timestamp.0,
        ).0
    }
}

/// The last `k` elements of `s`, or all of `s` when it is shorter.
pub open spec fn last_n(s: Seq<TouchPoint>, k: nat) -> Seq<TouchPoint> {
    if s.len() <= k {
        s
    } else {
        s.subrange(s.len() - k, s.len() as int)
    }
}

/// Offering samples with non-decreasing timestamps, none before the last
/// buffered one, accepts every one of them, and the window then holds
/// exactly the most recent `min(capacity, count)` of all samples, in
/// timestamp order.
pub proof fn law_monotonic_window(m: PredictorModel, pts: Seq<TouchPoint>)
    requires
        m.wf(),
        forall|i: int| 0 <= i < pts.len() ==> crate::engine::sample_ok(#[trigger] pts[i]),
        time_ordered(m.samples + pts),
    ensures
        forall|k: int|
            0 <= k < pts.len() ==> (#[trigger] feed(m, pts.take(k))).add_point(
                pts[k].position.x as i32,
                pts[k].position.y as i32,
                pts[k].timestamp.0,
            ).1 is Ok,
        feed(m, pts).samples == last_n(m.samples + pts, m.capacity),
        feed(m, pts).capacity == m.capacity,
        time_ordered(feed(m, pts).samples),
    decreases pts.len(),
{
    let all = m.samples + pts;
    if pts.len() == 0 {
        assert(all =~= m.samples);
    } else {
        let q = pts.drop_last();
        let p = pts.last();
        assert(m.samples + q =~= all.drop_last());
        assert forall|i: int, j: int| 0 <= i <= j < (m.samples + q).len() implies
            #[trigger] (m.samples + q)[i].timestamp.0 <= #[trigger] (m.samples + q)[j].timestamp.0 by {
            assert((m.samples + q)[i] == all[i]);
            assert((m.samples + q)[j] == all[j]);
        }
        law_monotonic_window(m, q);
        let before = feed(m, q);
        let a = m.samples + q;
        let w = before.samples;
        assert(crate::engine::sample_ok(p));
        assert(sample_of(p.position.x as i32, p.position.y as i32, p.timestamp.0) == p);
        assert(all[all.len() - 1] == p);
        if w.len() > 0 {
            assert(w.last() == a.last());
            assert(a.last() == all[a.len() - 1]);
        }
        let after = feed(m, pts);
        assert(after == before.add_point(p.position.x as i32, p.position.y as i32, p.timestamp.0).0);
        assert(after.samples =~= last_n(all, m.capacity));
        assert forall|k: int| 0 <= k < pts.len() implies (#[trigger] feed(m, pts.take(k))).add_point(
            pts[k].position.x as i32,
            pts[k].position.y as i32,
            pts[k].timestamp.0,
        ).1 is Ok by {
            if k == pts.len() - 1 {
                assert(pts.take(k) =~= q);
            } else {
                assert(pts.take(k) =~= q.take(k));
                assert(pts[k] == q[k]);
            }
        }
        let r = after.samples;
        assert forall|i: int, j: int| 0 <= i <= j < r.len() implies #[trigger] r[i].timestamp.0
            <= #[trigger] r[j].timestamp.0 by {
            let off = all.len() - r.len();
            assert(r[i] == all[i + off]);
            assert(r[j] == all[j + off]);
        }
    }
}

proof fn lemma_stationary_sums(s: Seq<TouchPoint>, k: int)
    requires
        0 <= k <= s.len(),
        forall|i: int| 0 <= i < s.len() ==> (#[trigger] s[i]).position == s[0].position,
    ensures
        crate::engine::sum_x(s, k) == 0,
        crate::engine::sum_y(s, k) == 0,
    decreases k,
{
    if k > 1 {
        lemma_stationary_sums(s, k - 1);
        let i = k - 1;
        assert(s[i].position == s[0].position);
        assert(s[i - 1].position == s[0].position);
        let dt = crate::engine::pair_dt(s, i);
        if dt > 0 {
            assert(crate::engine::pair_dx(s, i) * 1000 == 0);
            assert(crate::engine::pair_dy(s, i) * 1000 == 0);
            assert(0int / dt == 0) by (nonlinear_arith)
                requires
                    dt > 0,
            ;
            assert(i * i * 0int == 0) by (nonlinear_arith);
        }
    }
}

/// A gesture whose samples all lie at one position never yields a
/// prediction when the configured minimum speed is positive: it fails with
/// `VelocityTooLow` (or earlier, for too few samples, too short a gesture,
/// or no pair of samples apart in time).
pub proof fn law_stationary_gesture_has_no_prediction(m: PredictorModel)
    requires
        m.wf(),
        m.config.min_velocity_threshold > 0,
        forall|i: int| 0 <= i < m.samples.len() ==> (#[trigger] m.samples[i]).position == m.samples[0].position,
    ensures
        m.prediction() is Err,
        m.samples.len() >= 2 && m.duration() >= m.config.min_gesture_time_ms ==> (
        m.prediction() matches Err(e) && (e is VelocityTooLow || e is NumericalError)),
{
    let s = m.samples;
    if s.len() >= 2 {
        lemma_stationary_sums(s, s.len() as int);
        match weighted_velocity(s) {
            Ok(v) => {
                assert(v.x == 0 && v.y == 0);
                assert(crate::types::norm_sq(v.x as int, v.y as int) == 0);
                assert(crate::types::sq(m.config.min_velocity_threshold as int) > 0) by (nonlinear_arith)
                    requires
                        m.config.min_velocity_threshold > 0,
                ;
            },
            Err(_) => {},
        }
    }
}

/// `saturate(a + b)`.
fn saturating_sum(a: i64, b: i64) -> (r: i64)
    ensures
        r == saturate(a + b),
{
    let s = (a as i128) + (b as i128);
    if s > i64::MAX as i128 {
        i64::MAX
    } else if s < i64::MIN as i128 {
        i64::MIN
    } else {
        s as i64
    }
}

/// Predicts where one gesture comes to rest from its most recent samples.
pub struct GesturePredictor {
    touch_buffer: VecDeque<TouchPoint>,
    buffer_size: usize,
    physics_config: PhysicsConfig,
    gesture_start_time: Option<i64>,
}

impl View for GesturePredictor {
    type V = PredictorModel;

    closed spec fn view(&self) -> PredictorModel {
        PredictorModel {
            samples: self.touch_buffer@,
            capacity: self.buffer_size as nat,
            config: self.physics_config,
            start_time: self.gesture_start_time,
        }
    }
}

/// Clamps a requested window size into `[MIN_BUFFER_SIZE, MAX_BUFFER_SIZE]`.
pub open spec fn clamp_buffer_size(size: int) -> nat {
    if size < MIN_BUFFER_SIZE {
        MIN_BUFFER_SIZE as nat
    } else if size > MAX_BUFFER_SIZE {
        MAX_BUFFER_SIZE as nat
    } else {
        size as nat
    }
}

impl GesturePredictor {
    pub open spec fn wf(&self) -> bool {
        self@.wf()
    }

    /// An empty predictor with the default window size; fails when the
    /// configuration is invalid.
    pub fn new(physics_config: PhysicsConfig) -> (r: Result<Self, PredictorError>)
        ensures
            match physics_config.validation() {
                Ok(()) => r matches Ok(p) && p.wf() && p@ == PredictorModel::empty(
                    physics_config,
                    DEFAULT_BUFFER_SIZE as nat,
                ),
                Err(e) => r matches Err(e2) && e2 == e,
            },
    {
        Self::with_buffer_size(physics_config, DEFAULT_BUFFER_SIZE)
    }

    /// An empty predictor keeping `buffer_size` samples, clamped into
    /// `[MIN_BUFFER_SIZE, MAX_BUFFER_SIZE]`; fails when the configuration is
    /// invalid.
    pub fn with_buffer_size(physics_config: PhysicsConfig, buffer_size: usize) -> (r: Result<
        Self,
        PredictorError,
    >)
        ensures
            match physics_config.validation() {
                Ok(()) => r matches Ok(p) && p.wf() && p@ == PredictorModel::empty(
                    physics_config,
                    clamp_buffer_size(buffer_size as int),
                ),
                Err(e) => r matches Err(e2) && e2 == e,
            },
    {
        match physics_config.validate() {
            Ok(()) => Ok(Self::with_buffer_size_unchecked(physics_config, buffer_size)),
            Err(e) => Err(e),
        }
    }

    fn with_buffer_size_unchecked(physics_config: PhysicsConfig, buffer_size: usize) -> (r: Self)
        requires
            physics_config.valid(),
        ensures
            r.wf(),
            r@ == PredictorModel::empty(physics_config, clamp_buffer_size(buffer_size as int)),
    {
        let size = if buffer_size < MIN_BUFFER_SIZE {
            MIN_BUFFER_SIZE
        } else if buffer_size > MAX_BUFFER_SIZE {
            MAX_BUFFER_SIZE
        } else {
            buffer_size
        };
        let r = GesturePredictor {
            touch_buffer: VecDeque::with_capacity(size),
            buffer_size: size,
            physics_config,
            gesture_start_time: None,
        };
        assert(r@.samples =~= Seq::<TouchPoint>::empty());
        r
    }

    /// Offers the sample `(x, y)` at `timestamp_ms`. A negative timestamp,
    /// or one before the last buffered sample's, is refused and leaves the
    /// predictor unchanged; otherwise the sample is appended, evicting the
    /// oldest one when the window is full.
    pub fn add_touch_point(&mut self, x: i32, y: i32, timestamp_ms: i64) -> (r: Result<
        (),
        PredictorError,
    >)
        requires
            old(self).wf(),
        ensures
            final(self).wf(),
            (final(self)@, r) == old(self)@.add_point(x, y, timestamp_ms),
    {
        let touch_point = match TouchPoint::new(x, y, timestamp_ms) {
            Some(p) => p,
            None => {
                return Err(
                    PredictorError::InvalidTimestamp {
                        timestamp: timestamp_ms,
                        reason: "must be non-negative and finite",
                    },
                );
            },
        };
        let n = self.touch_buffer.len();
        if n > 0 {
            let last = self.touch_buffer[n - 1];
            if touch_point.timestamp.0 < last.timestamp.0 {
                return Err(
                    PredictorError::TimestampOutOfOrder {
                        previous: last.timestamp.0,
                        current: touch_point.timestamp.0,
                    },
                );
            }
        }
        if self.gesture_start_time.is_none() {
            self.gesture_start_time = Some(timestamp_ms);
        }
        if n >= self.buffer_size {
            let _ = self.touch_buffer.pop_front();
        }
        self.touch_buffer.push_back(touch_point);
        proof {
            let s0 = old(self)@.samples;
            let s1 = self@.samples;
            assert(s1 =~= window_push(s0, sample_of(x, y, timestamp_ms), old(self)@.capacity));
            assert(time_ordered(s1)) by {
                assert forall|i: int, j: int| 0 <= i <= j < s1.len() implies #[trigger] s1[i].timestamp.0
                    <= #[trigger] s1[j].timestamp.0 by {
                    let last = s1.len() - 1;
                    if n >= old(self).buffer_size {
                        if i < last {
                            assert(s1[i] == s0[i + 1]);
                        }
                        if j < last {
                            assert(s1[j] == s0[j + 1]);
                        } else if i < last {
                            assert(s0[i + 1].timestamp.0 <= s0[s0.len() - 1].timestamp.0);
                        }
                    } else {
                        if i < last {
                            assert(s1[i] == s0[i]);
                        }
                        if j < last {
                            assert(s1[j] == s0[j]);
                        } else if i < last {
                            assert(s0[i].timestamp.0 <= s0[s0.len() - 1].timestamp.0);
                        }
                    }
                }
            }
            if n >= old(self).buffer_size {
                assert(s1[0] == s0[1]);
            }
        }
        Ok(())
    }

    /// Offers each of `points` in turn (see `add_touch_point`) and returns
    /// how many were accepted. When their timestamps never decrease and none
    /// precedes the last buffered sample, all are accepted and the window
    /// ends up holding the most recent `min(capacity, count)` samples.
    pub fn add_touch_points(&mut self, points: &Vec<TouchPoint>) -> (r: usize)
        requires
            old(self).wf(),
        ensures
            final(self).wf(),
            final(self)@ == feed(old(self)@, points@),
            r <= points@.len(),
            (forall|i: int| 0 <= i < points@.len() ==> crate::engine::sample_ok(#[trigger] points@[i]))
                && time_ordered(old(self)@.samples + points@) ==> {
                &&& r == points@.len()
                &&& final(self)@.samples == last_n(old(self)@.samples + points@, old(self)@.capacity)
                &&& time_ordered(final(self)@.samples)
            },
    {
        let ghost start = self@;
        let ghost in_order = (forall|i: int|
            0 <= i < points@.len() ==> crate::engine::sample_ok(#[trigger] points@[i]))
            && time_ordered(start.samples + points@);
        proof {
            if in_order {
                law_monotonic_window(start, points@);
            }
        }
        let mut accepted: usize = 0;
        let mut i: usize = 0;
        while i < points.len()
            invariant
                self.wf(),
                i <= points@.len(),
                accepted <= i,
                self@ == feed(start, points@.take(i as int)),
                in_order ==> accepted == i,
                in_order ==> forall|k: int|
                    0 <= k < points@.len() ==> (#[trigger] feed(start, points@.take(k))).add_point(
                        points@[k].position.x as i32,
                        points@[k].position.y as i32,
                        points@[k].timestamp.0,
                    ).1 is Ok,
            decreases points@.len() - i,
        {
            let p = points[i];
            let res = self.add_touch_point(p.position.x as i32, p.position.y as i32, p.timestamp.0);
            proof {
                let next = points@.take(i + 1);
                assert(next.drop_last() =~= points@.take(i as int));
                assert(next.last() == points@[i as int]);
            }
            if res.is_ok() {
                accepted = accepted + 1;
            }
            i = i + 1;
        }
        assert(points@.take(points@.len() as int) =~= points@);
        accepted
    }

    /// The predicted resting point, or why there is none. Changes nothing.
    pub fn predict(&self) -> (r: Result<Prediction, PredictorError>)
        requires
            self.wf(),
        ensures
            r == self@.prediction(),
            r matches Ok(p) ==> p.confidence <= CONFIDENCE_ONE,
    {
        let n = self.touch_buffer.len();
        if n < 2 {
            return Err(PredictorError::InsufficientData { required: 2, actual: n });
        }
        let ghost s = self@.samples;
        let last = self.touch_buffer[n - 1];
        let duration: i64 = match self.gesture_start_time {
            Some(start) => last.timestamp.0 - start,
            None => 0,
        };
        if duration < self.physics_config.min_gesture_time_ms {
            return Err(
                PredictorError::GestureTooShort {
                    duration_ms: duration,
                    minimum_ms: self.physics_config.min_gesture_time_ms,
                },
            );
        }
        let velocity = match calculate_weighted_velocity(&self.touch_buffer) {
            Ok(v) => v,
            Err(e) => {
                return Err(e);
            },
        };
        let speed = velocity.speed();
        let (dx, dy, _) = match self.physics_config.calculate_stopping_distance(
            velocity.x,
            velocity.y,
        ) {
            Ok(d) => d,
            Err(e) => {
                return Err(e);
            },
        };
        let position = Point2D::new(
            saturating_sum(last.position.x, dx),
            saturating_sum(last.position.y, dy),
        );
        let c = calculate_confidence(&self.touch_buffer, &self.physics_config, speed, duration);
        Ok(Prediction::new(position, c as i64))
    }

    /// The prediction, or `None` where `predict` fails.
    pub fn get_prediction(&self) -> (r: Option<Prediction>)
        requires
            self.wf(),
        ensures
            match self@.prediction() {
                Ok(p) => r == Some(p),
                Err(_) => r.is_none(),
            },
            r matches Some(p) ==> p.confidence <= CONFIDENCE_ONE,
    {
        match self.predict() {
            Ok(p) => Some(p),
            Err(_) => None,
        }
    }

    /// A copy of this predictor, in the same state.
    pub fn snapshot(&self) -> (r: Self)
        requires
            self.wf(),
        ensures
            r.wf(),
            r@ == self@,
    {
        let n = self.touch_buffer.len();
        let mut copy: VecDeque<TouchPoint> = VecDeque::with_capacity(n);
        let mut i: usize = 0;
        while i < n
            invariant
                n == self.touch_buffer@.len(),
                i <= n,
                copy@ =~= self.touch_buffer@.take(i as int),
            decreases n - i,
        {
            copy.push_back(self.touch_buffer[i]);
            i = i + 1;
        }
        assert(copy@ =~= self.touch_buffer@);
        GesturePredictor {
            touch_buffer: copy,
            buffer_size: self.buffer_size,
            physics_config: self.physics_config,
            gesture_start_time: self.gesture_start_time,
        }
    }

    /// Empties the window and forgets the gesture's start time.
    pub fn reset(&mut self)
        requires
            old(self).wf(),
        ensures
            final(self).wf(),
            final(self)@ == PredictorModel::empty(old(self)@.config, old(self)@.capacity),
    {
        self.touch_buffer.clear();
        self.gesture_start_time = None;
        assert(self@.samples =~= Seq::<TouchPoint>::empty());
    }

    /// Whether the gesture looks abandoned. Changes nothing.
    pub fn detect_cancellation(&self) -> (r: bool)
        requires
            self.wf(),
        ensures
            r == cancelled(self@.samples, self@.config),
    {
        detect_cancellation_in(&self.touch_buffer, &self.physics_config)
    }

    /// The recency-weighted velocity of the buffered samples.
    pub fn calculate_weighted_velocity(&self) -> (r: Result<Velocity2D, PredictorError>)
        requires
            self.wf(),
        ensures
            r == weighted_velocity(self@.samples),
    {
        calculate_weighted_velocity(&self.touch_buffer)
    }

    /// Whether the buffered gesture is slowing down.
    pub fn is_gesture_decelerating(&self) -> (r: bool)
        requires
            self.wf(),
        ensures
            r == decelerating(self@.samples),
    {
        is_gesture_decelerating(&self.touch_buffer)
    }

    /// How straight the buffered path is, in parts per million.
    pub fn calculate_straightness_score(&self) -> (r: u32)
        requires
            self.wf(),
        ensures
            r == straightness(self@.samples),
    {
        calculate_straightness_score(&self.touch_buffer)
    }

    pub fn buffer_size(&self) -> (r: usize)
        ensures
            r == self@.capacity,
    {
        self.buffer_size
    }

    pub fn point_count(&self) -> (r: usize)
        ensures
            r == self@.samples.len(),
    {
        self.touch_buffer.len()
    }

    pub fn is_active(&self) -> (r: bool)
        ensures
            r == (self@.samples.len() > 0),
    {
        self.touch_buffer.len() > 0
    }

    /// The `i`-th buffered sample, oldest first.
    pub fn point_at(&self, i: usize) -> (r: Option<TouchPoint>)
        ensures
            i < self@.samples.len() ==> r == Some(self@.samples[i as int]),
            i >= self@.samples.len() ==> r.is_none(),
    {
        if i < self.touch_buffer.len() {
            Some(self.touch_buffer[i])
        } else {
            None
        }
    }

    pub fn gesture_start_time(&self) -> (r: Option<i64>)
        ensures
            r == self@.start_time,
    {
        self.gesture_start_time
    }

    pub fn physics_config(&self) -> (r: PhysicsConfig)
        ensures
            r == self@.config,
    {
        self.physics_config
    }
}

} // verus!
