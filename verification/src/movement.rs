//! Movement: paddles follow their keys, the ball follows its velocity.

use vstd::prelude::*;
use crate::entity::{Ball, Key, Paddle, PressedKeys};
use crate::geometry::{clamp, clamped, Vec2, PADDLE_MAX_Y, PADDLE_MIN_Y, PADDLE_SPEED};

verus! {

/// The distance that a paddle travels in `dt` microseconds while a key is
/// held, in micro-units.
pub open spec fn travel(dt: u64) -> int {
    PADDLE_SPEED * dt
}

/// A paddle's vertical coordinate after one frame of `dt` microseconds,
/// starting from `y`. A held up key raises it by `travel(dt)`, a held down
/// key then lowers it by as much, and each of the two adjustments is
/// brought back into the paddle's limits on its own.
pub open spec fn steered(y: int, up: bool, down: bool, dt: u64) -> int {
    let raised = if up {
        clamped(y + travel(dt), PADDLE_MIN_Y as int, PADDLE_MAX_Y as int)
    } else {
        y
    };
    if down {
        clamped(raised - travel(dt), PADDLE_MIN_Y as int, PADDLE_MAX_Y as int)
    } else {
        raised
    }
}

/// The keys held and the time elapsed in one frame, as one paddle sees it:
/// whether its up key is held, whether its down key is held, and the
/// microseconds elapsed.
pub type HeldFrame = (bool, bool, u64);

/// A paddle's vertical coordinate after a sequence of frames.
pub open spec fn steered_through(y: int, frames: Seq<HeldFrame>) -> int
    decreases frames.len(),
{
    if frames.len() == 0 {
        y
    } else {
        steered(
            steered_through(y, frames.drop_last()),
            frames.last().0,
            frames.last().1,
            frames.last().2,
        )
    }
}

/// A paddle that starts within its limits stays within them through any
/// sequence of frames, whichever keys are held and however long a frame
/// lasts.
pub proof fn lemma_paddle_stays_within_limits(y: int, frames: Seq<HeldFrame>)
    requires
        PADDLE_MIN_Y <= y <= PADDLE_MAX_Y,
    ensures
        PADDLE_MIN_Y <= steered_through(y, frames) <= PADDLE_MAX_Y,
    decreases frames.len(),
{
    if frames.len() > 0 {
        lemma_paddle_stays_within_limits(y, frames.drop_last());
    }
}

/// A frame in which a key is held leaves the paddle within its limits,
/// wherever it was before.
pub proof fn lemma_steering_clamps(y: int, up: bool, down: bool, dt: u64)
    requires
        up || down,
    ensures
        PADDLE_MIN_Y <= steered(y, up, down, dt) <= PADDLE_MAX_Y,
{
}

/// A frame in which neither key is held, or no time has passed, leaves a
/// paddle within its limits where it is.
pub proof fn lemma_idle_paddle_rests(y: int, up: bool, down: bool, dt: u64)
    requires
        PADDLE_MIN_Y <= y <= PADDLE_MAX_Y,
        (!up && !down) || dt == 0,
    ensures
        steered(y, up, down, dt) == y,
{
}

/// With both keys held, a paddle that has room above it ends the frame
/// where it began.
pub proof fn lemma_both_keys_cancel(y: int, dt: u64)
    requires
        PADDLE_MIN_Y <= y,
        y + travel(dt) <= PADDLE_MAX_Y,
    ensures
        steered(y, true, true, dt) == y,
{
}

/// The paddle after one frame of `dt` microseconds in which the keys of
/// `held` are down: only its vertical coordinate may differ.
pub open spec fn paddle_moved(paddle: Paddle, held: Set<Key>, dt: u64) -> Paddle {
    Paddle {
        position: Vec2 {
            x: paddle.position.x,
            y: steered(
                paddle.position.y as int,
                held.contains(paddle.up_key),
                held.contains(paddle.down_key),
                dt,
            ) as i64,
        },
        up_key: paddle.up_key,
        down_key: paddle.down_key,
    }
}

/// Moves one paddle for a frame of `dt` microseconds according to the keys
/// that are held.
pub fn move_paddle(paddle: &mut Paddle, input: &PressedKeys, dt: u64)
    ensures
        *final(paddle) == paddle_moved(*old(paddle), input@, dt),
        final(paddle).position.y == steered(
            old(paddle).position.y as int,
            input@.contains(old(paddle).up_key),
            input@.contains(old(paddle).down_key),
            dt,
        ),
        final(paddle).position.x == old(paddle).position.x,
        final(paddle).up_key == old(paddle).up_key,
        final(paddle).down_key == old(paddle).down_key,
        old(paddle).wf() ==> final(paddle).wf(),
{
    let step: i128 = PADDLE_SPEED as i128 * dt as i128;
    assert(step == travel(dt));
    if input.pressed(paddle.up_key) {
        paddle.position.y = clamp(paddle.position.y as i128 + step, PADDLE_MIN_Y, PADDLE_MAX_Y);
    }
    if input.pressed(paddle.down_key) {
        paddle.position.y = clamp(paddle.position.y as i128 - step, PADDLE_MIN_Y, PADDLE_MAX_Y);
    }
}

/// The distance covered at `speed` units per second in `dt` microseconds,
/// in micro-units.
pub open spec fn displacement(speed: i32, dt: u64) -> int {
    speed * dt
}

impl Ball {
    /// The horizontal coordinate after `dt` microseconds of flight.
    pub open spec fn advanced_x(self, dt: u64) -> int {
        self.position.x + displacement(self.velocity.x, dt)
    }

    /// The vertical coordinate after `dt` microseconds of flight.
    pub open spec fn advanced_y(self, dt: u64) -> int {
        self.position.y + displacement(self.velocity.y, dt)
    }

    /// The position after `dt` microseconds of flight is representable.
    pub open spec fn can_advance(self, dt: u64) -> bool {
        &&& i64::MIN <= self.advanced_x(dt) <= i64::MAX
        &&& i64::MIN <= self.advanced_y(dt) <= i64::MAX
    }
}

proof fn lemma_displacement_bound(speed: i32, dt: u64)
    ensures
        -0x8000_0000_0000_0000_0000_0000 <= displacement(speed, dt)
            <= 0x8000_0000_0000_0000_0000_0000,
{
    let s = speed as int;
    let d = dt as int;
    assert(-0x8000_0000 * 0x1_0000_0000_0000_0000 <= s * d <= 0x8000_0000
        * 0x1_0000_0000_0000_0000) by (nonlinear_arith)
        requires
            -0x8000_0000 <= s <= 0x8000_0000,
            0 <= d <= 0x1_0000_0000_0000_0000,
    ;
}

/// One coordinate after flight, as a wide value.
fn advanced(from: i64, speed: i32, dt: u64) -> (to: i128)
    ensures
        to == from + displacement(speed, dt),
{
    proof {
        lemma_displacement_bound(speed, dt);
    }
    from as i128 + speed as i128 * dt as i128
}

/// Whether the ball's position after `dt` microseconds of flight is
/// representable, so that `move_ball` may be called.
pub fn ball_can_move(ball: &Ball, dt: u64) -> (ok: bool)
    ensures
        ok == ball.can_advance(dt),
{
    let x = advanced(ball.position.x, ball.velocity.x, dt);
    let y = advanced(ball.position.y, ball.velocity.y, dt);
    i64::MIN as i128 <= x && x <= i64::MAX as i128 && i64::MIN as i128 <= y && y <= i64::MAX as i128
}

/// Moves the ball along its velocity for `dt` microseconds, whatever lies
/// in its way.
pub fn move_ball(ball: &mut Ball, dt: u64)
    requires
        old(ball).can_advance(dt),
    ensures
        final(ball).position.x == old(ball).advanced_x(dt),
        final(ball).position.y == old(ball).advanced_y(dt),
        final(ball).velocity == old(ball).velocity,
{
    let x = advanced(ball.position.x, ball.velocity.x, dt);
    let y = advanced(ball.position.y, ball.velocity.y, dt);
    ball.position = Vec2 { x: x as i64, y: y as i64 };
}

} // verus!
