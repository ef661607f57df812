//! Collisions: the ball against the top and bottom walls and against the
//! paddles.
//!
//! The ball meets a paddle when their bounding boxes overlap on both axes,
//! edges that merely touch not counting.

use vstd::prelude::*;
use rand::Rng;
use crate::entity::{Ball, Paddle};
use crate::geometry::{
    magnitude, Velocity, BALL_SIZE, FIELD_HEIGHT, PADDLE_HEIGHT, PADDLE_WIDTH,
};

verus! {

/// The ball reaches beyond the top or the bottom edge of the field.
pub open spec fn wall_hit(ball: Ball) -> bool {
    magnitude(ball.position.y as int) + BALL_SIZE / 2 > FIELD_HEIGHT / 2
}

/// The bounding boxes of the ball and of the paddle overlap.
pub open spec fn paddle_hit(ball: Ball, paddle: Paddle) -> bool {
    &&& ball.position.x - BALL_SIZE / 2 < paddle.position.x + PADDLE_WIDTH / 2
    &&& ball.position.x + BALL_SIZE / 2 > paddle.position.x - PADDLE_WIDTH / 2
    &&& ball.position.y + BALL_SIZE / 2 > paddle.position.y - PADDLE_HEIGHT / 2
    &&& ball.position.y - BALL_SIZE / 2 < paddle.position.y + PADDLE_HEIGHT / 2
}

/// The velocity with its vertical component negated.
pub open spec fn flipped(velocity: Velocity) -> Velocity {
    Velocity { x: velocity.x, y: (-velocity.y) as i32 }
}

/// The ball after the wall bounce: beyond an edge its vertical velocity is
/// negated, elsewhere nothing changes.
pub open spec fn wall_bounced(ball: Ball) -> Ball {
    if wall_hit(ball) {
        Ball { position: ball.position, velocity: flipped(ball.velocity) }
    } else {
        ball
    }
}

/// The velocity after a paddle is met: the horizontal component negated,
/// the vertical one replaced by `vertical`.
pub open spec fn rebounded(velocity: Velocity, vertical: i32) -> Velocity {
    Velocity { x: (-velocity.x) as i32, y: vertical }
}

/// A vertical speed that a rebound may draw: from -100 up to -21, or from
/// 20 up to 99.
pub open spec fn rebound_speed(vertical: int) -> bool {
    -100 <= vertical < -20 || 20 <= vertical < 100
}

/// How many of the two paddles the ball meets.
pub open spec fn hits(ball: Ball, left: Paddle, right: Paddle) -> int {
    (if paddle_hit(ball, left) { 1int } else { 0int })
        + (if paddle_hit(ball, right) { 1int } else { 0int })
}

/// What one collision pass may make of `before`, whatever is drawn: the
/// ball stays in place; the wall bounce is applied; where no paddle is met
/// nothing more changes; where one is met the horizontal velocity is
/// negated once for each paddle met and the vertical velocity is a
/// rebound speed.
pub open spec fn collided(before: Ball, left: Paddle, right: Paddle, after: Ball) -> bool {
    let walled = wall_bounced(before);
    &&& after.position == before.position
    &&& hits(before, left, right) == 0 ==> after.velocity == walled.velocity
    &&& hits(before, left, right) == 1 ==> after.velocity.x == -walled.velocity.x
    &&& hits(before, left, right) == 2 ==> after.velocity.x == walled.velocity.x
    &&& hits(before, left, right) > 0 ==> rebound_speed(after.velocity.y as int)
}

/// Whether the ball reaches beyond the top or the bottom edge.
pub fn hits_wall(ball: &Ball) -> (hit: bool)
    ensures
        hit == wall_hit(*ball),
{
    let reach: i64 = FIELD_HEIGHT / 2 - BALL_SIZE / 2;
    ball.position.y > reach || ball.position.y < -reach
}

/// Whether the ball's bounding box overlaps the paddle's.
pub fn hits_paddle(ball: &Ball, paddle: &Paddle) -> (hit: bool)
    ensures
        hit == paddle_hit(*ball, *paddle),
{
    let half_ball: i128 = (BALL_SIZE / 2) as i128;
    let half_width: i128 = (PADDLE_WIDTH / 2) as i128;
    let half_height: i128 = (PADDLE_HEIGHT / 2) as i128;
    let bx: i128 = ball.position.x as i128;
    let by: i128 = ball.position.y as i128;
    let px: i128 = paddle.position.x as i128;
    let py: i128 = paddle.position.y as i128;
    bx - half_ball < px + half_width && bx + half_ball > px - half_width && by + half_ball > py
        - half_height && by - half_ball < py + half_height
}

/// Negates the vertical velocity of a ball beyond the top or bottom edge.
pub fn bounce_off_wall(ball: &mut Ball)
    requires
        old(ball).wf(),
    ensures
        *final(ball) == wall_bounced(*old(ball)),
        final(ball).wf(),
{
    if hits_wall(ball) {
        ball.velocity.y = -ball.velocity.y;
    }
}

/// Turns the ball round at a paddle and gives it the vertical speed that
/// was drawn.
pub fn bounce_off_paddle(ball: &mut Ball, vertical: i32)
    requires
        old(ball).wf(),
        vertical > i32::MIN,
    ensures
        final(ball).position == old(ball).position,
        final(ball).velocity == rebounded(old(ball).velocity, vertical),
        final(ball).velocity.x == -old(ball).velocity.x,
        final(ball).wf(),
{
    ball.velocity = Velocity { x: -ball.velocity.x, y: vertical };
}

/// `rand::Rng::gen_ratio` on the generator of the calling thread
/// (`rand::thread_rng`): `true` with a chance of `numerator` in
/// `denominator`. The outcome is random, so the contract claims only what
/// holds of every draw: a ratio of one always gives `true`, a ratio of
/// zero always `false`. The call panics on a zero denominator and on a
/// numerator above the denominator, which the precondition leaves out.
#[verifier::external_body]
fn chance(numerator: u32, denominator: u32) -> (hit: bool)
    requires
        denominator > 0,
        numerator <= denominator,
    ensures
        numerator == denominator ==> hit,
        numerator == 0 ==> !hit,
{
    rand::thread_rng().gen_ratio(numerator, denominator)
}

/// `rand::Rng::gen_range` with the half-open range `low..high` on the
/// generator of the calling thread (`rand::thread_rng`). The value drawn
/// lies in the range: at least `low`, below `high`. The call panics on an
/// empty range, which the precondition leaves out.
#[verifier::external_body]
fn draw_between(low: i32, high: i32) -> (drawn: i32)
    requires
        low < high,
    ensures
        low <= drawn < high,
{
    rand::thread_rng().gen_range(low..high)
}

/// The half-open range that a rebound draws its vertical speed from, as
/// its lower bound and the bound just above it: heads gives the downward
/// range, -100 up to -21, tails the upward one, 20 up to 99.
pub open spec fn range_for(heads: bool) -> (int, int) {
    if heads {
        (-100, -20)
    } else {
        (20, 100)
    }
}

/// The range of rebound speeds that the coin selects.
pub fn rebound_range(heads: bool) -> (range: (i32, i32))
    ensures
        range.0 == range_for(heads).0,
        range.1 == range_for(heads).1,
        heads ==> range == (-100i32, -20i32),
        !heads ==> range == (20i32, 100i32),
{
    if heads {
        (-100, -20)
    } else {
        (20, 100)
    }
}

/// Every speed within the range of either side of the coin is a rebound
/// speed, and every rebound speed lies within the range of one side: a
/// negative one within that of heads, a positive one within that of tails.
pub proof fn lemma_ranges_make_rebound_speeds(vertical: int)
    ensures
        rebound_speed(vertical) <==> (range_for(true).0 <= vertical < range_for(true).1
            || range_for(false).0 <= vertical < range_for(false).1),
        range_for(true).0 <= vertical < range_for(true).1 ==> vertical < 0,
        range_for(false).0 <= vertical < range_for(false).1 ==> vertical > 0,
{
}

/// Draws the vertical speed for a rebound: a fair coin selects the range
/// through `rebound_range`, and the speed is drawn from that range.
pub fn draw_rebound_speed() -> (vertical: i32)
    ensures
        rebound_speed(vertical as int),
{
    let heads = chance(1, 2);
    let (low, high) = rebound_range(heads);
    draw_between(low, high)
}

/// Tries the ball against one paddle and rebounds it with a drawn speed
/// where they meet.
fn collide_with_paddle(ball: &mut Ball, paddle: &Paddle)
    requires
        old(ball).wf(),
    ensures
        final(ball).position == old(ball).position,
        final(ball).wf(),
        !paddle_hit(*old(ball), *paddle) ==> final(ball).velocity == old(ball).velocity,
        paddle_hit(*old(ball), *paddle) ==> final(ball).velocity.x == -old(ball).velocity.x
            && rebound_speed(final(ball).velocity.y as int),
{
    if hits_paddle(ball, paddle) {
        let vertical = draw_rebound_speed();
        bounce_off_paddle(ball, vertical);
    }
}

/// One collision pass on the ball where it now is: the wall bounce first,
/// then the left paddle, then the right one.
pub fn ball_collide(ball: &mut Ball, left: &Paddle, right: &Paddle)
    requires
        old(ball).wf(),
    ensures
        collided(*old(ball), *left, *right, *final(ball)),
        final(ball).wf(),
{
    bounce_off_wall(ball);
    collide_with_paddle(ball, left);
    collide_with_paddle(ball, right);
}

/// Two wall bounces in a row, with no movement between them, restore the
/// ball.
pub proof fn lemma_wall_bounce_twice(ball: Ball)
    requires
        ball.wf(),
    ensures
        wall_bounced(wall_bounced(ball)) == ball,
{
}

/// Two collision passes in a row on a ball that meets no paddle, with no
/// movement between them, restore its velocity.
pub proof fn lemma_pass_twice_restores(
    start: Ball,
    left: Paddle,
    right: Paddle,
    between: Ball,
    end: Ball,
)
    requires
        start.wf(),
        hits(start, left, right) == 0,
        collided(start, left, right, between),
        collided(between, left, right, end),
    ensures
        wall_hit(start) ==> between.velocity == flipped(start.velocity),
        end == start,
{
}

/// A ball within the walls that meets no paddle leaves a collision pass
/// as it entered it.
pub proof fn lemma_clear_ball_unchanged(before: Ball, left: Paddle, right: Paddle, after: Ball)
    requires
        collided(before, left, right, after),
        !wall_hit(before),
        !paddle_hit(before, left),
        !paddle_hit(before, right),
    ensures
        after == before,
{
}

/// A ball that meets exactly one paddle leaves the pass with its
/// horizontal velocity negated and a rebound speed as its vertical one.
pub proof fn lemma_single_hit_turns_ball(before: Ball, left: Paddle, right: Paddle, after: Ball)
    requires
        collided(before, left, right, after),
        paddle_hit(before, left) != paddle_hit(before, right),
    ensures
        after.velocity.x == -before.velocity.x,
        rebound_speed(after.velocity.y as int),
{
}

} // verus!
