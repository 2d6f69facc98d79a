//! Physics configuration and the constant-deceleration stopping model.
use vstd::prelude::*;
use crate::error::PredictorError;
use crate::types::{abs_wide, div_trunc, floor_sqrt, isqrt, norm_sq, sq, squared_norm};

verus! {

/// Clamps `v` into the range of `i64`.
pub open spec fn saturate(v: int) -> int {
    if v < i64::MIN {
        i64::MIN as int
    } else if v > i64::MAX {
        i64::MAX as int
    } else {
        v
    }
}

/// Tuning parameters of the fling model, all in whole units.
#[derive(Debug, Clone, Copy, PartialEq, Eq, Structural)]
pub struct PhysicsConfig {
    /// Deceleration rate in pixels/second².
    pub deceleration_rate: i64,
    /// Minimum velocity threshold in pixels/second.
    pub min_velocity_threshold: i64,
    /// Minimum gesture time in milliseconds.
    pub min_gesture_time_ms: i64,
}

/// `saturate(-m)` when `neg`, else `saturate(m)`.
fn saturating_signed(neg: bool, m: u128) -> (r: i64)
    ensures
        r == saturate(if neg { -m } else { m as int }),
{
    if neg {
        if m > 0x8000_0000_0000_0000 {
            i64::MIN
        } else {
            (-(m as i128)) as i64
        }
    } else {
        if m > i64::MAX as u128 {
            i64::MAX
        } else {
            m as i64
        }
    }
}

impl PhysicsConfig {
    /// The default tuning: 1500 px/s², 50 px/s, 30 ms.
    pub open spec fn default_spec() -> PhysicsConfig {
        PhysicsConfig { deceleration_rate: 1500, min_velocity_threshold: 50, min_gesture_time_ms: 30 }
    }

    /// What the stopping model gives for the velocity `(vx, vy)` in px/s:
    /// the distance travelled until rest, per axis in pixels, and the time to
    /// rest in milliseconds.
    ///
    /// Under a constant deceleration `a` opposite to the motion, the time to
    /// rest is `T = |v| / a`, and the distance `v·T − ½·(v/|v|)·a·T²`
    /// simplifies to `v·|v| / (2a)`. The speed `|v|` is taken rounded down,
    /// each distance rounded toward zero, the time rounded down, and each
    /// clamped into the range of `i64`.
    pub open spec fn stopping_distance(&self, vx: int, vy: int) -> Result<(i64, i64, i64), PredictorError> {
        let s2 = norm_sq(vx, vy);
        let s = floor_sqrt(s2 as nat) as int;
        let a = self.deceleration_rate as int;
        if s2 < sq(self.min_velocity_threshold as int) {
            Err(PredictorError::VelocityTooLow { velocity: s as i64, minimum: self.min_velocity_threshold })
        } else if s2 == 0 {
            Ok((0i64, 0i64, 0i64))
        } else {
            Ok(
                (
                    saturate(div_trunc(vx * s, 2 * a)) as i64,
                    saturate(div_trunc(vy * s, 2 * a)) as i64,
                    saturate(s * 1000 / a) as i64,
                ),
            )
        }
    }

    pub open spec fn valid(&self) -> bool {
        self.deceleration_rate > 0 && self.min_velocity_threshold >= 0
            && self.min_gesture_time_ms >= 0
    }

    /// The outcome of validation: the first parameter out of range, if any.
    pub open spec fn validation(&self) -> Result<(), PredictorError> {
        if self.deceleration_rate <= 0 {
            Err(
                PredictorError::InvalidConfiguration {
                    field: "deceleration_rate",
                    value: self.deceleration_rate,
                    reason: "must be positive",
                },
            )
        } else if self.min_velocity_threshold < 0 {
            Err(
                PredictorError::InvalidConfiguration {
                    field: "min_velocity_threshold",
                    value: self.min_velocity_threshold,
                    reason: "cannot be negative",
                },
            )
        } else if self.min_gesture_time_ms < 0 {
            Err(
                PredictorError::InvalidConfiguration {
                    field: "min_gesture_time_ms",
                    value: self.min_gesture_time_ms,
                    reason: "cannot be negative",
                },
            )
        } else {
            Ok(())
        }
    }

    pub fn new(deceleration_rate: i64, min_velocity_threshold: i64, min_gesture_time_ms: i64) -> (r:
        Result<Self, PredictorError>)
        ensures
            ({
                let c = PhysicsConfig {
                    deceleration_rate,
                    min_velocity_threshold,
                    min_gesture_time_ms,
                };
                match c.validation() {
                    Ok(()) => r == Ok::<PhysicsConfig, PredictorError>(c),
                    Err(e) => r == Err::<PhysicsConfig, PredictorError>(e),
                }
            }),
    {
        let config = PhysicsConfig { deceleration_rate, min_velocity_threshold, min_gesture_time_ms };
        match config.validate() {
            Ok(()) => Ok(config),
            Err(e) => Err(e),
        }
    }

    pub fn validate(&self) -> (r: Result<(), PredictorError>)
        ensures
            r == self.validation(),
            r.is_ok() == self.valid(),
    {
        if self.deceleration_rate <= 0 {
            return Err(
                PredictorError::InvalidConfiguration {
                    field: "deceleration_rate",
                    value: self.deceleration_rate,
                    reason: "must be positive",
                },
            );
        }
        if self.min_velocity_threshold < 0 {
            return Err(
                PredictorError::InvalidConfiguration {
                    field: "min_velocity_threshold",
                    value: self.min_velocity_threshold,
                    reason: "cannot be negative",
                },
            );
        }
        if self.min_gesture_time_ms < 0 {
            return Err(
                PredictorError::InvalidConfiguration {
                    field: "min_gesture_time_ms",
                    value: self.min_gesture_time_ms,
                    reason: "cannot be negative",
                },
            );
        }
        Ok(())
    }
}

impl PhysicsConfig {
    /// Distance to rest and time to rest for the velocity `(velocity_x, velocity_y)`.
    pub fn calculate_stopping_distance(&self, velocity_x: i64, velocity_y: i64) -> (r: Result<
        (i64, i64, i64),
        PredictorError,
    >)
        requires
            self.valid(),
        ensures
            r == self.stopping_distance(velocity_x as int, velocity_y as int),
            r matches Ok((_, _, t)) ==> t >= 0,
            r matches Ok((_, _, t)) ==> t < i64::MAX ==> {
                let s = floor_sqrt(norm_sq(velocity_x as int, velocity_y as int) as nat) as int;
                0 <= s * 1000 - self.deceleration_rate * t < self.deceleration_rate
            },
    {
        let s2 = squared_norm(velocity_x as i128, velocity_y as i128);
        let m = self.min_velocity_threshold as u128;
        let s = isqrt(s2);
        assert(m * m <= 0x4000_0000_0000_0000_0000_0000_0000_0000) by (nonlinear_arith)
            requires
                m <= 0x8000_0000_0000_0000,
        ;
        if s2 < m * m {
            proof {
                assert(s < m) by (nonlinear_arith)
                    requires
                        s * s <= s2,
                        s2 < m * m,
                        0 <= s,
                        0 <= m,
                ;
            }
            return Err(
                PredictorError::VelocityTooLow {
                    velocity: s as i64,
                    minimum: self.min_velocity_threshold,
                },
            );
        }
        if s2 == 0 {
            assert(s == 0) by (nonlinear_arith)
                requires
                    s * s <= s2,
                    s2 == 0,
                    s >= 0,
            ;
            return Ok((0, 0, 0));
        }
        let a = self.deceleration_rate as u128;
        let ax = abs_wide(velocity_x as i128);
        let ay = abs_wide(velocity_y as i128);
        proof {
            assert(ax * s < 0x8000_0000_0000_0000 * 0x1_0000_0000_0000_0000) by (nonlinear_arith)
                requires
                    ax <= 0x8000_0000_0000_0000,
                    s < 0x1_0000_0000_0000_0000,
            ;
            assert(ay * s < 0x8000_0000_0000_0000 * 0x1_0000_0000_0000_0000) by (nonlinear_arith)
                requires
                    ay <= 0x8000_0000_0000_0000,
                    s < 0x1_0000_0000_0000_0000,
            ;
        }
        let qx = (ax * s) / (2 * a);
        let qy = (ay * s) / (2 * a);
        let t = (s * 1000) / a;
        proof {
            let vx = velocity_x as int;
            let vy = velocity_y as int;
            assert(vx * s == if vx < 0 { -(ax * s) } else { ax * s }) by (nonlinear_arith)
                requires
                    ax == if vx < 0 { -vx } else { vx },
            ;
            assert(vy * s == if vy < 0 { -(ay * s) } else { ay * s }) by (nonlinear_arith)
                requires
                    ay == if vy < 0 { -vy } else { vy },
            ;
            assert(0 <= s * 1000 - a * t < a) by (nonlinear_arith)
                requires
                    t == (s as int * 1000) / (a as int),
                    a > 0,
                    s >= 0,
            ;
        }
        let dx = saturating_signed(velocity_x < 0, qx);
        let dy = saturating_signed(velocity_y < 0, qy);
        let time = saturating_signed(false, t);
        Ok((dx, dy, time))
    }
}

/// The closed form of the stopping distance agrees with the kinematics:
/// when the time to rest `t` is exact (`s = a·t`), travelling at `v` for
/// `t` while decelerating by `a·(v/s)` covers `v·t − ½·(v/s)·a·t²`, which
/// is `v·s / (2a)`. Stated multiplied through by `2·a·s`.
pub proof fn law_stopping_kinematics(v: int, s: int, a: int, t: int)
    requires
        a > 0,
        s > 0,
        s == a * t,
    ensures
        2 * a * s * (v * t) - v * a * a * t * t == v * s * s,
{
    assert(2 * a * s * (v * t) - v * a * a * t * t == v * s * s) by (nonlinear_arith)
        requires
            s == a * t,
    ;
}

impl Default for PhysicsConfig {
    fn default() -> (r: Self)
        ensures
            r == PhysicsConfig::default_spec(),
    {
        PhysicsConfig { deceleration_rate: 1500, min_velocity_threshold: 50, min_gesture_time_ms: 30 }
    }
}

} // verus!
