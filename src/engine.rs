//! The prediction engine: pure functions over a window of touch samples.
//!
//! Each executable function here is proved equal to a spec function that
//! states its formula over the samples' view.
use vstd::prelude::*;
use crate::error::PredictorError;
use crate::physics::PhysicsConfig;
use crate::types::{
    div_trunc, floor_sqrt, isqrt, norm_sq, per_second, sq, squared_norm, TouchPoint,
    Velocity2D, CONFIDENCE_ONE,
};

verus! {

/// Largest number of samples a window may hold.
pub const MAX_BUFFER_SIZE: usize = 100;

/// Largest per-axis velocity, in px/s, that two samples with coordinates in
/// the range of `i32` can give.
pub const MAX_PAIR_VELOCITY: i64 = 4_294_967_295_000;

/// A sample that the window accepts: coordinates in the range of `i32`,
/// timestamp not negative.
pub open spec fn sample_ok(p: TouchPoint) -> bool {
    &&& i32::MIN <= p.position.x <= i32::MAX
    &&& i32::MIN <= p.position.y <= i32::MAX
    &&& p.timestamp.0 >= 0
}

pub open spec fn samples_ok(s: Seq<TouchPoint>) -> bool {
    &&& s.len() <= MAX_BUFFER_SIZE
    &&& forall|i: int| 0 <= i < s.len() ==> sample_ok(#[trigger] s[i])
}

/// Time between sample `i - 1` and sample `i`, in ms.
pub open spec fn pair_dt(s: Seq<TouchPoint>, i: int) -> int {
    s[i].timestamp.0 - s[i - 1].timestamp.0
}

pub open spec fn pair_dx(s: Seq<TouchPoint>, i: int) -> int {
    s[i].position.x - s[i - 1].position.x
}

pub open spec fn pair_dy(s: Seq<TouchPoint>, i: int) -> int {
    s[i].position.y - s[i - 1].position.y
}

/// Weight of the pair ending at sample `i`: `i²` (the recency bias
/// `(i/n)²` scaled by `n²`), or 0 when the pair spans no time.
pub open spec fn pair_weight(s: Seq<TouchPoint>, i: int) -> int {
    if pair_dt(s, i) > 0 {
        i * i
    } else {
        0
    }
}

/// Weighted velocity term of the pair ending at sample `i`, x axis.
pub open spec fn term_x(s: Seq<TouchPoint>, i: int) -> int {
    if pair_dt(s, i) > 0 {
        i * i * div_trunc(pair_dx(s, i) * 1000, pair_dt(s, i))
    } else {
        0
    }
}

/// Weighted velocity term of the pair ending at sample `i`, y axis.
pub open spec fn term_y(s: Seq<TouchPoint>, i: int) -> int {
    if pair_dt(s, i) > 0 {
        i * i * div_trunc(pair_dy(s, i) * 1000, pair_dt(s, i))
    } else {
        0
    }
}

/// Sum of the weights of the pairs ending before sample `k`.
pub open spec fn total_weight(s: Seq<TouchPoint>, k: int) -> int
    decreases k,
{
    if k <= 1 {
        0
    } else {
        total_weight(s, k - 1) + pair_weight(s, k - 1)
    }
}

pub open spec fn sum_x(s: Seq<TouchPoint>, k: int) -> int
    decreases k,
{
    if k <= 1 {
        0
    } else {
        sum_x(s, k - 1) + term_x(s, k - 1)
    }
}

pub open spec fn sum_y(s: Seq<TouchPoint>, k: int) -> int
    decreases k,
{
    if k <= 1 {
        0
    } else {
        sum_y(s, k - 1) + term_y(s, k - 1)
    }
}

/// The recency-weighted mean of the pairwise velocities, in px/s, each
/// rounded toward zero.
pub open spec fn weighted_velocity(s: Seq<TouchPoint>) -> Result<Velocity2D, PredictorError> {
    let n = s.len() as int;
    if n < 2 {
        Err(PredictorError::InsufficientData { required: 2, actual: n as usize })
    } else if total_weight(s, n) == 0 {
        Err(
            PredictorError::NumericalError {
                operation: "velocity calculation",
                details: "no valid velocity measurements",
            },
        )
    } else {
        Ok(
            Velocity2D {
                x: div_trunc(sum_x(s, n), total_weight(s, n)) as i64,
                y: div_trunc(sum_y(s, n), total_weight(s, n)) as i64,
            },
        )
    }
}

/// `div_trunc(a, b)` on wide integers.
fn div_trunc_wide(a: i128, b: i128) -> (r: i128)
    requires
        b > 0,
        a > i128::MIN,
    ensures
        r == div_trunc(a as int, b as int),
{
    if a >= 0 {
        a / b
    } else {
        -((-a) / b)
    }
}

proof fn lemma_mean_bounded(a: int, w: int, bound: int)
    requires
        w > 0,
        bound >= 0,
        -bound * w <= a <= bound * w,
    ensures
        -bound <= div_trunc(a, w) <= bound,
{
    assert(-bound * w == -(bound * w)) by (nonlinear_arith);
    if a >= 0 {
        assert(a / w <= bound) by (nonlinear_arith)
            requires
                w > 0,
                0 <= a <= bound * w,
        ;
        assert(a / w >= 0) by (nonlinear_arith)
            requires
                w > 0,
                0 <= a,
        ;
    } else {
        assert((-a) / w <= bound) by (nonlinear_arith)
            requires
                w > 0,
                0 <= -a <= bound * w,
        ;
        assert((-a) / w >= 0) by (nonlinear_arith)
            requires
                w > 0,
                0 <= -a,
        ;
    }
}

/// Velocity of the pair ending at sample `i`, one axis, with its bound.
fn pair_velocity(d: i64, dt: i64) -> (r: i64)
    requires
        -MAX_PAIR_VELOCITY / 1000 <= d <= MAX_PAIR_VELOCITY / 1000,
        dt > 0,
    ensures
        r == div_trunc(d * 1000, dt as int),
        -MAX_PAIR_VELOCITY <= r <= MAX_PAIR_VELOCITY,
{
    per_second(d, dt)
}

/// The recency-weighted velocity of the window.
pub fn calculate_weighted_velocity(buf: &std::collections::VecDeque<TouchPoint>) -> (r: Result<
    Velocity2D,
    PredictorError,
>)
    requires
        samples_ok(buf@),
    ensures
        r == weighted_velocity(buf@),
        r matches Ok(v) ==> -MAX_PAIR_VELOCITY <= v.x <= MAX_PAIR_VELOCITY
            && -MAX_PAIR_VELOCITY <= v.y <= MAX_PAIR_VELOCITY,
{
    let n = buf.len();
    if n < 2 {
        return Err(PredictorError::InsufficientData { required: 2, actual: n });
    }
    let ghost s = buf@;
    let mut sx: i128 = 0;
    let mut sy: i128 = 0;
    let mut w: i128 = 0;
    let mut i: usize = 1;
    while i < n
        invariant
            s == buf@,
            samples_ok(s),
            n == s.len(),
            n <= 100,
            1 <= i <= n,
            sx == sum_x(s, i as int),
            sy == sum_y(s, i as int),
            w == total_weight(s, i as int),
            0 <= w <= i * i * i,
            -MAX_PAIR_VELOCITY * w <= sx <= MAX_PAIR_VELOCITY * w,
            -MAX_PAIR_VELOCITY * w <= sy <= MAX_PAIR_VELOCITY * w,
        decreases n - i,
    {
        proof {
            assert(i * i * i <= 1_000_000 && i * i <= 10_000) by (nonlinear_arith)
                requires
                    1 <= i <= 100,
            ;
        }
        let prev = buf[i - 1];
        let curr = buf[i];
        assert(sample_ok(s[i - 1]) && sample_ok(s[i as int]));
        let dt = curr.timestamp.0 - prev.timestamp.0;
        if dt > 0 {
            let vx = pair_velocity(curr.position.x - prev.position.x, dt);
            let vy = pair_velocity(curr.position.y - prev.position.y, dt);
            let ii = (i as i128) * (i as i128);
            proof {
                let b = MAX_PAIR_VELOCITY as int;
                assert(-b * ii <= ii * vx <= b * ii) by (nonlinear_arith)
                    requires
                        ii >= 0,
                        -b <= vx <= b,
                ;
                assert(-b * ii <= ii * vy <= b * ii) by (nonlinear_arith)
                    requires
                        ii >= 0,
                        -b <= vy <= b,
                ;
                assert(w + ii <= (i + 1) * (i + 1) * (i + 1)) by (nonlinear_arith)
                    requires
                        w <= i * i * i,
                        ii == i * i,
                        i >= 1,
                ;
                assert(-b * (w + ii) == -b * w + -b * ii) by (nonlinear_arith);
                assert(b * (w + ii) == b * w + b * ii) by (nonlinear_arith);
            }
            sx = sx + ii * (vx as i128);
            sy = sy + ii * (vy as i128);
            w = w + ii;
        } else {
            proof {
                assert(i * i * i <= (i + 1) * (i + 1) * (i + 1)) by (nonlinear_arith)
                    requires
                        i >= 1,
                ;
            }
        }
        i = i + 1;
    }
    proof {
        assert(i * i * i <= 1_000_000) by (nonlinear_arith)
            requires
                1 <= i <= 100,
        ;
    }
    if w == 0 {
        return Err(
            PredictorError::NumericalError {
                operation: "velocity calculation",
                details: "no valid velocity measurements",
            },
        );
    }
    proof {
        lemma_mean_bounded(sx as int, w as int, MAX_PAIR_VELOCITY as int);
        lemma_mean_bounded(sy as int, w as int, MAX_PAIR_VELOCITY as int);
    }
    let vx = div_trunc_wide(sx, w);
    let vy = div_trunc_wide(sy, w);
    Ok(Velocity2D { x: vx as i64, y: vy as i64 })
}

/// Length of the pair ending at sample `i`, in thousandths of a pixel,
/// rounded down.
pub open spec fn seg_len_milli(s: Seq<TouchPoint>, i: int) -> int {
    floor_sqrt((norm_sq(pair_dx(s, i), pair_dy(s, i)) * 1_000_000) as nat) as int
}

/// Length of the path through the samples before index `k`, in thousandths
/// of a pixel.
pub open spec fn path_len_milli(s: Seq<TouchPoint>, k: int) -> int
    decreases k,
{
    if k <= 1 {
        0
    } else {
        path_len_milli(s, k - 1) + seg_len_milli(s, k - 1)
    }
}

/// Squared distance from the first sample to the last.
pub open spec fn direct_sq(s: Seq<TouchPoint>) -> int {
    norm_sq(
        s.last().position.x - s[0].position.x,
        s.last().position.y - s[0].position.y,
    )
}

/// How straight the path is, in parts per million: the direct distance
/// from first to last sample over the path length, at most 1. Fewer than
/// three samples count as straight; a path that ends where it started
/// (less than one pixel away) counts as not straight at all.
pub open spec fn straightness(s: Seq<TouchPoint>) -> int {
    let n = s.len() as int;
    if n < 3 {
        CONFIDENCE_ONE as int
    } else if direct_sq(s) == 0 {
        0
    } else {
        let direct = floor_sqrt((direct_sq(s) * 1_000_000) as nat) as int;
        let path = path_len_milli(s, n);
        if path == 0 {
            0
        } else if direct * 1_000_000 / path > CONFIDENCE_ONE {
            CONFIDENCE_ONE as int
        } else {
            direct * 1_000_000 / path
        }
    }
}

/// Speed over the pair ending at sample `i`, in px/s rounded down.
pub open spec fn pair_speed(s: Seq<TouchPoint>, i: int) -> int {
    seg_len_milli(s, i) / pair_dt(s, i)
}

/// Speeds of the pairs ending at samples `lo .. hi` that span time, oldest first.
pub open spec fn speeds_between(s: Seq<TouchPoint>, lo: int, hi: int) -> Seq<int>
    decreases hi - lo,
{
    if hi <= lo {
        Seq::empty()
    } else if pair_dt(s, hi - 1) > 0 {
        speeds_between(s, lo, hi - 1).push(pair_speed(s, hi - 1))
    } else {
        speeds_between(s, lo, hi - 1)
    }
}

/// Each speed is less than nine tenths of the one before.
pub open spec fn each_slower(v: Seq<int>) -> bool {
    forall|k: int| 1 <= k < v.len() ==> 10 * #[trigger] v[k] < 9 * v[k - 1]
}

/// The gesture is slowing down: over the last four samples, at least two
/// pairs span time and each one's speed is below nine tenths of the one
/// before.
pub open spec fn decelerating(s: Seq<TouchPoint>) -> bool {
    let n = s.len() as int;
    let v = speeds_between(s, n - 3, n);
    n >= 4 && v.len() >= 2 && each_slower(v)
}

/// Dot product of the last two moves.
pub open spec fn last_turn_dot(s: Seq<TouchPoint>) -> int {
    let n = s.len() as int;
    pair_dx(s, n - 2) * pair_dx(s, n - 1) + pair_dy(s, n - 2) * pair_dy(s, n - 1)
}

/// The gesture looks abandoned: its last move turns back by more than 90°,
/// or it is slowing down and its weighted speed is below half the
/// configured minimum.
pub open spec fn cancelled(s: Seq<TouchPoint>, config: PhysicsConfig) -> bool {
    if s.len() < 3 {
        false
    } else if last_turn_dot(s) < 0 {
        true
    } else if decelerating(s) {
        match weighted_velocity(s) {
            Ok(v) => 4 * norm_sq(v.x as int, v.y as int) < sq(config.min_velocity_threshold as int),
            Err(_) => false,
        }
    } else {
        false
    }
}

/// Speed factor of the confidence, parts per million: full at 500 px/s.
pub open spec fn speed_factor(speed: int) -> int {
    if 2000 * speed > CONFIDENCE_ONE {
        CONFIDENCE_ONE as int
    } else {
        2000 * speed
    }
}

/// Duration factor of the confidence, parts per million: none at the
/// configured minimum, full 100 ms above it.
pub open spec fn duration_factor(duration: int, minimum: int) -> int {
    let d = (duration - minimum) * 10_000;
    if d < 0 {
        0
    } else if d > CONFIDENCE_ONE {
        CONFIDENCE_ONE as int
    } else {
        d
    }
}

/// The confidence of a prediction, parts per million: the product of the
/// speed, duration and straightness factors, halved when the gesture is
/// slowing down.
pub open spec fn confidence(s: Seq<TouchPoint>, config: PhysicsConfig, speed: int, duration: int) -> int {
    let c = speed_factor(speed) * duration_factor(duration, config.min_gesture_time_ms as int)
        / 1_000_000 * straightness(s) / 1_000_000;
    if decelerating(s) {
        c / 2
    } else {
        c
    }
}

/// Length of the move from `a` to `b`, in thousandths of a pixel, rounded down.
fn segment_len_milli(a: TouchPoint, b: TouchPoint) -> (r: u64)
    requires
        sample_ok(a),
        sample_ok(b),
    ensures
        r == floor_sqrt(
            (norm_sq(b.position.x - a.position.x, b.position.y - a.position.y) * 1_000_000) as nat,
        ),
        r <= 0x800_0000_0000,
{
    let dx = (b.position.x as i128) - (a.position.x as i128);
    let dy = (b.position.y as i128) - (a.position.y as i128);
    let d2 = squared_norm(dx, dy);
    proof {
        assert(dx * dx <= 0x1_0000_0000_0000_0000) by (nonlinear_arith)
            requires
                -0x1_0000_0000 <= dx <= 0x1_0000_0000,
        ;
        assert(dy * dy <= 0x1_0000_0000_0000_0000) by (nonlinear_arith)
            requires
                -0x1_0000_0000 <= dy <= 0x1_0000_0000,
        ;
    }
    let r = isqrt(d2 * 1_000_000);
    proof {
        if r > 0x800_0000_0000 {
            assert(r * r > 0x800_0000_0000 * 0x800_0000_0000) by (nonlinear_arith)
                requires
                    r > 0x800_0000_0000,
            ;
        }
    }
    r as u64
}

/// How straight the window's path is, in parts per million.
pub fn calculate_straightness_score(buf: &std::collections::VecDeque<TouchPoint>) -> (r: u32)
    requires
        samples_ok(buf@),
    ensures
        r == straightness(buf@),
        r <= CONFIDENCE_ONE,
{
    let n = buf.len();
    if n < 3 {
        return CONFIDENCE_ONE;
    }
    let ghost s = buf@;
    let first = buf[0];
    let last = buf[n - 1];
    assert(sample_ok(s[0]) && sample_ok(s[n - 1]));
    if first.position.x == last.position.x && first.position.y == last.position.y {
        return 0;
    }
    proof {
        let dx = last.position.x - first.position.x;
        let dy = last.position.y - first.position.y;
        assert(dx * dx + dy * dy > 0) by (nonlinear_arith)
            requires
                dx != 0 || dy != 0,
        ;
    }
    let direct = segment_len_milli(first, last);
    let mut path: u64 = 0;
    let mut i: usize = 1;
    while i < n
        invariant
            s == buf@,
            samples_ok(s),
            n == s.len(),
            n <= 100,
            1 <= i <= n,
            path == path_len_milli(s, i as int),
            path <= i * 0x800_0000_0000,
        decreases n - i,
    {
        assert(sample_ok(s[i - 1]) && sample_ok(s[i as int]));
        let seg = segment_len_milli(buf[i - 1], buf[i]);
        path = path + seg;
        i = i + 1;
    }
    if path == 0 {
        return 0;
    }
    let ratio = (direct as u128) * 1_000_000 / (path as u128);
    if ratio > CONFIDENCE_ONE as u128 {
        CONFIDENCE_ONE
    } else {
        ratio as u32
    }
}

/// Whether the gesture is slowing down over its last four samples.
pub fn is_gesture_decelerating(buf: &std::collections::VecDeque<TouchPoint>) -> (r: bool)
    requires
        samples_ok(buf@),
    ensures
        r == decelerating(buf@),
{
    let n = buf.len();
    if n < 4 {
        return false;
    }
    let ghost s = buf@;
    let mut speeds: Vec<u64> = Vec::new();
    let mut j: usize = n - 3;
    while j < n
        invariant
            s == buf@,
            samples_ok(s),
            n == s.len(),
            4 <= n <= 100,
            n - 3 <= j <= n,
            speeds@.len() <= j - (n - 3),
            forall|m: int| 0 <= m < speeds@.len() ==> speeds@[m] <= 0x800_0000_0000,
            speeds@.len() == speeds_between(s, n - 3, j as int).len(),
            forall|k: int|
                0 <= k < speeds@.len() ==> speeds@[k] as int == speeds_between(
                    s,
                    n - 3,
                    j as int,
                )[k],
        decreases n - j,
    {
        let prev = buf[j - 1];
        let curr = buf[j];
        assert(sample_ok(s[j - 1]) && sample_ok(s[j as int]));
        let dt = curr.timestamp.0 - prev.timestamp.0;
        if dt > 0 {
            let len = segment_len_milli(prev, curr);
            assert(len / (dt as u64) <= len) by (nonlinear_arith)
                requires
                    dt >= 1,
            ;
            speeds.push(len / (dt as u64));
        }
        j = j + 1;
    }
    let ghost v = speeds_between(s, n - 3, n as int);
    if speeds.len() < 2 {
        return false;
    }
    let mut k: usize = 1;
    while k < speeds.len()
        invariant
            s == buf@,
            n == s.len(),
            n >= 4,
            v == speeds_between(s, n - 3, n as int),
            speeds@.len() == v.len(),
            forall|m: int| 0 <= m < speeds@.len() ==> speeds@[m] as int == v[m],
            1 <= k <= speeds@.len(),
            forall|m: int| 1 <= m < k ==> 10 * #[trigger] v[m] < 9 * v[m - 1],
            speeds@.len() <= 3,
            forall|m: int| 0 <= m < speeds@.len() ==> speeds@[m] <= 0x800_0000_0000,
        decreases speeds@.len() - k,
    {
        if !(10 * speeds[k] < 9 * speeds[k - 1]) {
            assert(!(10 * v[k as int] < 9 * v[k - 1]));
            assert(!each_slower(v));
            assert(!decelerating(s));
            return false;
        }
        k = k + 1;
    }
    true
}

/// Whether the gesture looks abandoned (see `cancelled`).
pub fn detect_cancellation_in(buf: &std::collections::VecDeque<TouchPoint>, config: &PhysicsConfig) -> (r:
    bool)
    requires
        samples_ok(buf@),
        config.valid(),
    ensures
        r == cancelled(buf@, *config),
{
    let n = buf.len();
    if n < 3 {
        return false;
    }
    let ghost s = buf@;
    let first = buf[n - 3];
    let middle = buf[n - 2];
    let last = buf[n - 1];
    assert(sample_ok(s[n - 3]) && sample_ok(s[n - 2]) && sample_ok(s[n - 1]));
    let v1x = (middle.position.x - first.position.x) as i128;
    let v1y = (middle.position.y - first.position.y) as i128;
    let v2x = (last.position.x - middle.position.x) as i128;
    let v2y = (last.position.y - middle.position.y) as i128;
    proof {
        assert(-0x1_0000_0000_0000_0000 <= v1x * v2x <= 0x1_0000_0000_0000_0000) by (nonlinear_arith)
            requires
                -0x1_0000_0000 <= v1x <= 0x1_0000_0000,
                -0x1_0000_0000 <= v2x <= 0x1_0000_0000,
        ;
        assert(-0x1_0000_0000_0000_0000 <= v1y * v2y <= 0x1_0000_0000_0000_0000) by (nonlinear_arith)
            requires
                -0x1_0000_0000 <= v1y <= 0x1_0000_0000,
                -0x1_0000_0000 <= v2y <= 0x1_0000_0000,
        ;
    }
    let dot = v1x * v2x + v1y * v2y;
    if dot < 0 {
        return true;
    }
    if is_gesture_decelerating(buf) {
        match calculate_weighted_velocity(buf) {
            Ok(v) => {
                let s2 = squared_norm(v.x as i128, v.y as i128);
                proof {
                    let b = MAX_PAIR_VELOCITY as int;
                    assert(v.x * v.x <= b * b) by (nonlinear_arith)
                        requires
                            -b <= v.x <= b,
                    ;
                    assert(v.y * v.y <= b * b) by (nonlinear_arith)
                        requires
                            -b <= v.y <= b,
                    ;
                }
                let m = config.min_velocity_threshold as u128;
                assert(m * m <= 0x4000_0000_0000_0000_0000_0000_0000_0000) by (nonlinear_arith)
                    requires
                        m <= 0x8000_0000_0000_0000,
                ;
                4 * s2 < m * m
            },
            Err(_) => false,
        }
    } else {
        false
    }
}

/// The confidence of a prediction made from the window (see `confidence`).
pub fn calculate_confidence(
    buf: &std::collections::VecDeque<TouchPoint>,
    config: &PhysicsConfig,
    speed: u64,
    duration: i64,
) -> (r: u32)
    requires
        samples_ok(buf@),
        config.valid(),
        duration >= 0,
    ensures
        r == confidence(buf@, *config, speed as int, duration as int),
        r <= CONFIDENCE_ONE,
{
    let one: u128 = CONFIDENCE_ONE as u128;
    let scaled_speed: u128 = (speed as u128) * 2000;
    let sf: u128 = if scaled_speed > one {
        one
    } else {
        scaled_speed
    };
    let d: i128 = ((duration as i128) - (config.min_gesture_time_ms as i128)) * 10_000;
    let df: u128 = if d < 0 {
        0
    } else if d > one as i128 {
        one
    } else {
        d as u128
    };
    let st = calculate_straightness_score(buf) as u128;
    proof {
        assert(sf * df <= one * one) by (nonlinear_arith)
            requires
                sf <= one,
                df <= one,
        ;
        assert(sf * df / 1_000_000 <= one) by (nonlinear_arith)
            requires
                sf * df <= one * one,
                one == 1_000_000,
        ;
        assert((sf * df / 1_000_000) * st <= one * one) by (nonlinear_arith)
            requires
                sf * df / 1_000_000 <= one,
                st <= one,
        ;
        assert((sf * df / 1_000_000) * st / 1_000_000 <= one) by (nonlinear_arith)
            requires
                (sf * df / 1_000_000) * st <= one * one,
                one == 1_000_000,
        ;
    }
    let c = sf * df / 1_000_000 * st / 1_000_000;
    if is_gesture_decelerating(buf) {
        (c / 2) as u32
    } else {
        c as u32
    }
}

} // verus!
