//! The play field's fixed dimensions and the arithmetic on coordinates.

use vstd::prelude::*;

verus! {

/// Micro-units in one field unit.
pub const UNIT: i64 = 1_000_000;

/// Width of the field.
pub const FIELD_WIDTH: i64 = 640_000_000;

/// Height of the field.
pub const FIELD_HEIGHT: i64 = 480_000_000;

/// Width of a paddle.
pub const PADDLE_WIDTH: i64 = 10_000_000;

/// Height of a paddle.
pub const PADDLE_HEIGHT: i64 = 70_000_000;

/// Side length of the square ball.
pub const BALL_SIZE: i64 = 15_000_000;

/// Distance that a paddle's centre keeps from the top and bottom edges.
pub const PADDLE_MARGIN: i64 = 30_000_000;

/// Distance of a paddle's centre from its side edge of the field.
pub const PADDLE_INSET: i64 = 50_000_000;

/// Speed of a paddle while one of its keys is held, in units per second.
pub const PADDLE_SPEED: i64 = 100;

/// Lowest vertical coordinate that a paddle's centre may take.
pub const PADDLE_MIN_Y: i64 = -210_000_000;

/// Highest vertical coordinate that a paddle's centre may take.
pub const PADDLE_MAX_Y: i64 = 210_000_000;

/// A point of the field, or a displacement, in micro-units. The origin is
/// the field's centre; `y` grows upwards.
#[derive(Clone, Copy, Debug, PartialEq, Eq, Structural)]
pub struct Vec2 {
    pub x: i64,
    pub y: i64,
}

/// A velocity in whole units per second.
#[derive(Clone, Copy, Debug, PartialEq, Eq, Structural)]
pub struct Velocity {
    pub x: i32,
    pub y: i32,
}

impl Velocity {
    /// Both components can be negated without leaving `i32`.
    pub open spec fn reversible(self) -> bool {
        self.x > i32::MIN && self.y > i32::MIN
    }
}

/// `v` brought into `[lo, hi]`.
pub open spec fn clamped(v: int, lo: int, hi: int) -> int {
    if v < lo {
        lo
    } else if v > hi {
        hi
    } else {
        v
    }
}

/// The absolute value of `v`.
pub open spec fn magnitude(v: int) -> int {
    if v < 0 {
        -v
    } else {
        v
    }
}

/// The sizes and the paddle speed are positive, the margin is smaller
/// than the field's half height, and the limits of a paddle's travel are
/// that half height less the margin on either side.
pub proof fn lemma_field_dimensions()
    ensures
        PADDLE_WIDTH > 0,
        PADDLE_HEIGHT > 0,
        BALL_SIZE > 0,
        PADDLE_SPEED > 0,
        PADDLE_MARGIN < FIELD_HEIGHT / 2,
        PADDLE_MIN_Y == -(FIELD_HEIGHT / 2) + PADDLE_MARGIN,
        PADDLE_MAX_Y == FIELD_HEIGHT / 2 - PADDLE_MARGIN,
        PADDLE_MIN_Y < 0 < PADDLE_MAX_Y,
{
}

/// Brings a wide intermediate value into `[lo, hi]`.
pub fn clamp(v: i128, lo: i64, hi: i64) -> (r: i64)
    requires
        lo <= hi,
    ensures
        r == clamped(v as int, lo as int, hi as int),
{
    if v < lo as i128 {
        lo
    } else if v > hi as i128 {
        hi
    } else {
        v as i64
    }
}

} // verus!
