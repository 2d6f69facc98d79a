//! Value types shared by the buffer, the physics model and the registry.
//!
//! Positions are whole pixels, timestamps whole milliseconds, velocities
//! pixels per second and confidences parts per million. Every quantity that
//! the prediction reads is an integer, so each formula below is exact.
use vstd::prelude::*;

verus! {

/// A confidence of 1.0, in parts per million.
pub const CONFIDENCE_ONE: u32 = 1_000_000;

/// `r` is the integer square root of `n`: the largest `r` with `r * r <= n`.
pub open spec fn is_floor_sqrt(n: int, r: int) -> bool {
    0 <= r && r * r <= n && n < (r + 1) * (r + 1)
}

/// The integer square root of `n`.
pub open spec fn floor_sqrt(n: nat) -> nat {
    choose|r: nat| is_floor_sqrt(n as int, r as int)
}

/// Truncating division (rounds toward zero), for a positive divisor.
pub open spec fn div_trunc(a: int, b: int) -> int {
    if a >= 0 {
        a / b
    } else {
        -((-a) / b)
    }
}

pub open spec fn sq(a: int) -> int {
    a * a
}

/// Squared Euclidean length of `(dx, dy)`.
pub open spec fn norm_sq(dx: int, dy: int) -> int {
    dx * dx + dy * dy
}

pub proof fn lemma_floor_sqrt_unique(n: int, a: int, b: int)
    requires
        is_floor_sqrt(n, a),
        is_floor_sqrt(n, b),
    ensures
        a == b,
{
    if a < b {
        assert((a + 1) * (a + 1) <= b * b) by (nonlinear_arith)
            requires
                0 <= a + 1 <= b,
        ;
    } else if b < a {
        assert((b + 1) * (b + 1) <= a * a) by (nonlinear_arith)
            requires
                0 <= b + 1 <= a,
        ;
    }
}

/// Establishes that `floor_sqrt(n)` is the unique root once one is known.
pub proof fn lemma_floor_sqrt_is(n: nat, r: nat)
    requires
        is_floor_sqrt(n as int, r as int),
    ensures
        floor_sqrt(n) == r,
{
    let c = floor_sqrt(n);
    assert(is_floor_sqrt(n as int, c as int));
    lemma_floor_sqrt_unique(n as int, c as int, r as int);
}

/// Integer square root by bisection.
pub fn isqrt(n: u128) -> (r: u128)
    ensures
        is_floor_sqrt(n as int, r as int),
        r as nat == floor_sqrt(n as nat),
        r < 0x1_0000_0000_0000_0000,
{
    let mut lo: u128 = 0;
    let mut hi: u128 = 0x1_0000_0000_0000_0000;
    while hi - lo > 1
        invariant
            lo < hi <= 0x1_0000_0000_0000_0000,
            lo * lo <= n,
            n < hi * hi,
        decreases hi - lo,
    {
        let mid: u128 = lo + (hi - lo) / 2;
        assert(mid * mid < 0x1_0000_0000_0000_0000 * 0x1_0000_0000_0000_0000) by (nonlinear_arith)
            requires
                mid < 0x1_0000_0000_0000_0000,
        ;
        if mid * mid <= n {
            lo = mid;
        } else {
            hi = mid;
        }
    }
    proof {
        assert(hi == lo + 1);
        lemma_floor_sqrt_is(n as nat, lo as nat);
    }
    lo
}

/// `|v|`, for a `v` within the range of `i64`.
pub fn abs_wide(v: i128) -> (r: u128)
    requires
        i64::MIN <= v <= i64::MAX,
    ensures
        r == if v < 0 { -v } else { v as int },
        r * r == v * v,
        r <= 0x8000_0000_0000_0000,
        r * r <= 0x4000_0000_0000_0000_0000_0000_0000_0000,
{
    let r: u128 = if v < 0 { (-v) as u128 } else { v as u128 };
    proof {
        assert(r * r == v * v) by (nonlinear_arith)
            requires
                r == v || r == -v,
        ;
        assert(r * r <= 0x4000_0000_0000_0000_0000_0000_0000_0000) by (nonlinear_arith)
            requires
                r <= 0x8000_0000_0000_0000,
        ;
    }
    r
}

/// `dx² + dy²`, for components within the range of `i64`.
pub fn squared_norm(dx: i128, dy: i128) -> (r: u128)
    requires
        i64::MIN <= dx <= i64::MAX,
        i64::MIN <= dy <= i64::MAX,
    ensures
        r == norm_sq(dx as int, dy as int),
        r <= 0x8000_0000_0000_0000_0000_0000_0000_0000,
{
    let ax = abs_wide(dx);
    let ay = abs_wide(dy);
    ax * ax + ay * ay
}

/// A position on the touch surface, in whole pixels.
#[derive(Debug, Clone, Copy, PartialEq, Eq, Structural)]
pub struct Point2D {
    pub x: i64,
    pub y: i64,
}

impl Point2D {
    pub fn new(x: i64, y: i64) -> (r: Self)
        ensures
            r.x == x,
            r.y == y,
    {
        Point2D { x, y }
    }

    /// Euclidean distance to `other`, rounded down to whole pixels.
    pub fn distance_to(&self, other: &Point2D) -> (r: u64)
        requires
            i64::MIN <= other.x - self.x <= i64::MAX,
            i64::MIN <= other.y - self.y <= i64::MAX,
        ensures
            r as nat == floor_sqrt(norm_sq(other.x - self.x, other.y - self.y) as nat),
    {
        let dx = (other.x as i128) - (self.x as i128);
        let dy = (other.y as i128) - (self.y as i128);
        let d2 = squared_norm(dx, dy);
        isqrt(d2) as u64
    }

    /// Distance from the origin, rounded down to whole pixels.
    pub fn magnitude(&self) -> (r: u64)
        ensures
            r as nat == floor_sqrt(norm_sq(self.x as int, self.y as int) as nat),
    {
        let origin = Point2D { x: 0, y: 0 };
        origin.distance_to(self)
    }
}

impl core::ops::Sub for Point2D {
    type Output = Point2D;

    fn sub(self, rhs: Point2D) -> (r: Point2D) {
        Point2D { x: self.x - rhs.x, y: self.y - rhs.y }
    }
}

impl vstd::std_specs::ops::SubSpecImpl for Point2D {
    open spec fn obeys_sub_spec() -> bool {
        true
    }

    open spec fn sub_req(self, rhs: Point2D) -> bool {
        i64::MIN <= self.x - rhs.x <= i64::MAX && i64::MIN <= self.y - rhs.y <= i64::MAX
    }

    open spec fn sub_spec(self, rhs: Point2D) -> Point2D {
        Point2D { x: (self.x - rhs.x) as i64, y: (self.y - rhs.y) as i64 }
    }
}

impl core::ops::Mul<i64> for Point2D {
    type Output = Point2D;

    fn mul(self, k: i64) -> (r: Point2D) {
        Point2D { x: self.x * k, y: self.y * k }
    }
}

impl vstd::std_specs::ops::MulSpecImpl<i64> for Point2D {
    open spec fn obeys_mul_spec() -> bool {
        true
    }

    open spec fn mul_req(self, k: i64) -> bool {
        i64::MIN <= self.x * k <= i64::MAX && i64::MIN <= self.y * k <= i64::MAX
    }

    open spec fn mul_spec(self, k: i64) -> Point2D {
        Point2D { x: (self.x * k) as i64, y: (self.y * k) as i64 }
    }
}

/// A point in time, in whole milliseconds.
#[derive(Debug, Clone, Copy, PartialEq, Eq, Structural)]
pub struct Timestamp(pub i64);

impl Timestamp {
    pub fn new(millis: i64) -> (r: Self)
        ensures
            r.0 == millis,
    {
        Timestamp(millis)
    }

    pub fn as_millis(&self) -> (r: i64)
        ensures
            r == self.0,
    {
        self.0
    }

    /// A timestamp is valid when it is not negative.
    pub fn is_valid(&self) -> (r: bool)
        ensures
            r == (self.0 >= 0),
    {
        self.0 >= 0
    }

    /// Milliseconds elapsed since `earlier`, or `None` when `earlier` is later.
    pub fn duration_since(&self, earlier: &Timestamp) -> (r: Option<i64>)
        requires
            self.0 - earlier.0 <= i64::MAX,
        ensures
            self.0 >= earlier.0 ==> r == Some((self.0 - earlier.0) as i64),
            self.0 < earlier.0 ==> r.is_none(),
    {
        if self.0 >= earlier.0 {
            Some(self.0 - earlier.0)
        } else {
            None
        }
    }
}

/// A velocity, in pixels per second.
#[derive(Debug, Clone, Copy, PartialEq, Eq, Structural)]
pub struct Velocity2D {
    pub x: i64,
    pub y: i64,
}

/// Largest displacement, in pixels, that converts to a velocity without overflow.
pub const MAX_DISPLACEMENT: i64 = 9_223_372_036_854_775;

impl Velocity2D {
    pub fn new(x: i64, y: i64) -> (r: Self)
        ensures
            r.x == x,
            r.y == y,
    {
        Velocity2D { x, y }
    }

    /// Average velocity of a move from `start` to `end` over `dt_ms`
    /// milliseconds, rounded toward zero; `None` unless `dt_ms` is positive.
    pub fn from_points_and_time(start: Point2D, end: Point2D, dt_ms: i64) -> (r: Option<Self>)
        requires
            -MAX_DISPLACEMENT <= end.x - start.x <= MAX_DISPLACEMENT,
            -MAX_DISPLACEMENT <= end.y - start.y <= MAX_DISPLACEMENT,
        ensures
            dt_ms <= 0 ==> r.is_none(),
            dt_ms > 0 ==> r == Some(
                Velocity2D {
                    x: div_trunc((end.x - start.x) * 1000, dt_ms as int) as i64,
                    y: div_trunc((end.y - start.y) * 1000, dt_ms as int) as i64,
                },
            ),
    {
        if dt_ms <= 0 {
            return None;
        }
        let x = per_second(end.x - start.x, dt_ms);
        let y = per_second(end.y - start.y, dt_ms);
        Some(Velocity2D { x, y })
    }

    /// Speed, rounded down to whole pixels per second.
    pub fn speed(&self) -> (r: u64)
        ensures
            r as nat == floor_sqrt(norm_sq(self.x as int, self.y as int) as nat),
    {
        Point2D { x: self.x, y: self.y }.magnitude()
    }
}

/// `d` pixels over `dt_ms` milliseconds, in pixels per second, rounded toward zero.
pub fn per_second(d: i64, dt_ms: i64) -> (r: i64)
    requires
        -MAX_DISPLACEMENT <= d <= MAX_DISPLACEMENT,
        dt_ms > 0,
    ensures
        r == div_trunc(d * 1000, dt_ms as int),
        d >= 0 ==> 0 <= r <= d * 1000,
        d < 0 ==> d * 1000 <= r <= 0,
{
    let scaled = d * 1000;
    if scaled >= 0 {
        assert(0 <= scaled / dt_ms <= scaled) by (nonlinear_arith)
            requires
                scaled >= 0,
                dt_ms >= 1,
        ;
        scaled / dt_ms
    } else {
        let m = -scaled;
        assert(0 <= m / dt_ms <= m) by (nonlinear_arith)
            requires
                m >= 0,
                dt_ms >= 1,
        ;
        -(m / dt_ms)
    }
}

/// One touch sample: where the finger was, and when.
#[derive(Debug, Clone, Copy, PartialEq, Eq, Structural)]
pub struct TouchPoint {
    pub position: Point2D,
    pub timestamp: Timestamp,
}

impl TouchPoint {
    /// A sample at `(x, y)`; `None` when the timestamp is negative.
    pub fn new(x: i32, y: i32, timestamp_ms: i64) -> (r: Option<Self>)
        ensures
            timestamp_ms < 0 ==> r.is_none(),
            timestamp_ms >= 0 ==> r == Some(
                TouchPoint {
                    position: Point2D { x: x as i64, y: y as i64 },
                    timestamp: Timestamp(timestamp_ms),
                },
            ),
    {
        let timestamp = Timestamp::new(timestamp_ms);
        if timestamp.is_valid() {
            Some(TouchPoint { position: Point2D::new(x as i64, y as i64), timestamp })
        } else {
            None
        }
    }
}

/// Where a released gesture is expected to come to rest.
#[derive(Debug, Clone, Copy, PartialEq, Eq, Structural)]
pub struct Prediction {
    pub position: Point2D,
    /// Confidence in parts per million, from 0 to `CONFIDENCE_ONE`.
    pub confidence: u32,
}

pub open spec fn clamp_confidence(c: int) -> int {
    if c < 0 {
        0
    } else if c > CONFIDENCE_ONE {
        CONFIDENCE_ONE as int
    } else {
        c
    }
}

impl Prediction {
    /// A prediction whose confidence is clamped to `[0, CONFIDENCE_ONE]`.
    pub fn new(position: Point2D, confidence: i64) -> (r: Self)
        ensures
            r.position == position,
            r.confidence == clamp_confidence(confidence as int),
    {
        let c: u32 = if confidence < 0 {
            0
        } else if confidence > CONFIDENCE_ONE as i64 {
            CONFIDENCE_ONE
        } else {
            confidence as u32
        };
        Prediction { position, confidence: c }
    }
}

} // verus!
