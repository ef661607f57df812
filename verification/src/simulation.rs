//! One frame of the game: movement first, then collisions on the
//! positions that movement left.

use vstd::prelude::*;
use crate::collision::{ball_collide, collided};
use crate::entity::{Ball, Key, PressedKeys, World};
use crate::geometry::Vec2;
use crate::movement::{ball_can_move, move_ball, move_paddle, paddle_moved};

verus! {

/// The ball after `dt` microseconds of flight, before any collision is
/// looked at.
pub open spec fn ball_moved(ball: Ball, dt: u64) -> Ball
    recommends
        ball.can_advance(dt),
{
    Ball {
        position: Vec2 {
            x: ball.advanced_x(dt) as i64,
            y: ball.advanced_y(dt) as i64,
        },
        velocity: ball.velocity,
    }
}

/// What one frame may make of `before`, whatever is drawn: both paddles
/// have followed their keys, the ball has flown for `dt` microseconds, and
/// a collision pass has been made on the ball where it then was, against
/// the paddles where they then were.
pub open spec fn stepped(before: World, held: Set<Key>, dt: u64, after: World) -> bool {
    &&& after.left == paddle_moved(before.left, held, dt)
    &&& after.right == paddle_moved(before.right, held, dt)
    &&& collided(ball_moved(before.ball, dt), after.left, after.right, after.ball)
}

/// A frame keeps well-formed paddles within their limits and the ball's
/// velocity reversible, whichever keys are held and however long the frame
/// lasts.
pub proof fn lemma_frame_keeps_world_well_formed(
    before: World,
    held: Set<Key>,
    dt: u64,
    after: World,
)
    requires
        before.wf(),
        stepped(before, held, dt, after),
    ensures
        after.wf(),
{
}

/// Moves both paddles for a frame of `dt` microseconds.
pub fn move_paddles(world: &mut World, input: &PressedKeys, dt: u64)
    ensures
        final(world).left == paddle_moved(old(world).left, input@, dt),
        final(world).right == paddle_moved(old(world).right, input@, dt),
        final(world).ball == old(world).ball,
        old(world).left.wf() ==> final(world).left.wf(),
        old(world).right.wf() ==> final(world).right.wf(),
{
    move_paddle(&mut world.left, input, dt);
    move_paddle(&mut world.right, input, dt);
}

/// Runs one frame of `dt` microseconds with the keys of `input` held.
pub fn step(world: &mut World, input: &PressedKeys, dt: u64)
    requires
        old(world).wf(),
        old(world).ball.can_advance(dt),
    ensures
        stepped(*old(world), input@, dt, *final(world)),
        final(world).wf(),
{
    move_paddles(world, input, dt);
    move_ball(&mut world.ball, dt);
    ball_collide(&mut world.ball, &world.left, &world.right);
}

/// Runs one frame if the ball's new position is representable. If it is
/// not, the world is left as it was and the answer is `false`.
pub fn try_step(world: &mut World, input: &PressedKeys, dt: u64) -> (ran: bool)
    requires
        old(world).wf(),
    ensures
        ran == old(world).ball.can_advance(dt),
        ran ==> stepped(*old(world), input@, dt, *final(world)),
        !ran ==> *final(world) == *old(world),
        final(world).wf(),
{
    if ball_can_move(&world.ball, dt) {
        step(world, input, dt);
        true
    } else {
        false
    }
}

} // verus!
