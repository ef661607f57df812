//! The records of the game: two paddles and one ball, and the keys that
//! steer the paddles.

use vstd::prelude::*;
use crate::geometry::{
    Vec2, Velocity, FIELD_WIDTH, PADDLE_INSET, PADDLE_MAX_Y, PADDLE_MIN_Y,
};

verus! {

/// A key of the keyboard that the game is bound to. The simulation only
/// compares keys for equality.
#[derive(Clone, Copy, Debug, PartialEq, Eq, Structural)]
pub enum Key {
    KeyW,
    KeyS,
    ArrowUp,
    ArrowDown,
}

/// The keys that are held down during one frame.
#[derive(Debug)]
pub struct PressedKeys {
    pub keys: Vec<Key>,
}

impl View for PressedKeys {
    type V = Set<Key>;

    /// The set of keys that are held.
    open spec fn view(&self) -> Set<Key> {
        self.keys@.to_set()
    }
}

impl PressedKeys {
    /// No key is held.
    pub fn none() -> (input: PressedKeys)
        ensures
            input@ == Set::<Key>::empty(),
    {
        let input = PressedKeys { keys: Vec::new() };
        assert(input.keys@.to_set() =~= Set::<Key>::empty());
        input
    }

    /// Marks `key` as held.
    pub fn press(&mut self, key: Key)
        ensures
            final(self)@ == old(self)@.insert(key),
    {
        self.keys.push(key);
        assert(self.keys@.to_set() =~= old(self).keys@.to_set().insert(key)) by {
            assert forall|k: Key| self.keys@.to_set().contains(k) implies old(
                self,
            ).keys@.to_set().insert(key).contains(k) by {
                let i = choose|i: int| 0 <= i < self.keys@.len() && self.keys@[i] == k;
                if i < old(self).keys@.len() {
                    assert(old(self).keys@[i] == k);
                }
            }
            assert forall|k: Key|
                old(self).keys@.to_set().insert(key).contains(k) implies self.keys@.to_set().contains(
                k,
            ) by {
                if k == key {
                    assert(self.keys@[self.keys@.len() - 1] == k);
                } else {
                    let i = choose|i: int| 0 <= i < old(self).keys@.len() && old(self).keys@[i] == k;
                    assert(self.keys@[i] == k);
                }
            }
        }
    }

    /// Whether `key` is held.
    pub fn pressed(&self, key: Key) -> (held: bool)
        ensures
            held == self@.contains(key),
    {
        let mut i: usize = 0;
        while i < self.keys.len()
            invariant
                i <= self.keys@.len(),
                forall|j: int| 0 <= j < i ==> self.keys@[j] != key,
            decreases self.keys@.len() - i,
        {
            if self.keys[i] == key {
                assert(self.keys@.contains(key));
                return true;
            }
            i += 1;
        }
        assert(!self.keys@.contains(key));
        false
    }
}

/// A player's paddle. Only its vertical coordinate ever changes.
#[derive(Clone, Copy, Debug, PartialEq, Eq, Structural)]
pub struct Paddle {
    /// Centre of the paddle.
    pub position: Vec2,
    /// The key that moves the paddle up.
    pub up_key: Key,
    /// The key that moves the paddle down.
    pub down_key: Key,
}

impl Paddle {
    /// The paddle's centre lies within its vertical limits.
    pub open spec fn wf(self) -> bool {
        PADDLE_MIN_Y <= self.position.y <= PADDLE_MAX_Y
    }

    /// Whether the paddle is well formed.
    pub fn is_well_formed(&self) -> (ok: bool)
        ensures
            ok == self.wf(),
    {
        PADDLE_MIN_Y <= self.position.y && self.position.y <= PADDLE_MAX_Y
    }
}

/// The ball.
#[derive(Clone, Copy, Debug, PartialEq, Eq, Structural)]
pub struct Ball {
    /// Centre of the ball.
    pub position: Vec2,
    /// Its velocity.
    pub velocity: Velocity,
}

impl Ball {
    /// The velocity can be reversed.
    pub open spec fn wf(self) -> bool {
        self.velocity.reversible()
    }

    /// Whether the ball is well formed.
    pub fn is_well_formed(&self) -> (ok: bool)
        ensures
            ok == self.wf(),
    {
        self.velocity.x > i32::MIN && self.velocity.y > i32::MIN
    }
}

/// Everything that the simulation owns.
#[derive(Clone, Copy, Debug, PartialEq, Eq, Structural)]
pub struct World {
    /// The paddle at the left edge.
    pub left: Paddle,
    /// The paddle at the right edge.
    pub right: Paddle,
    /// The ball.
    pub ball: Ball,
}

impl World {
    /// Both paddles and the ball are well formed.
    pub open spec fn wf(self) -> bool {
        self.left.wf() && self.right.wf() && self.ball.wf()
    }

    /// Whether the world is well formed.
    pub fn is_well_formed(&self) -> (ok: bool)
        ensures
            ok == self.wf(),
    {
        self.left.is_well_formed() && self.right.is_well_formed() && self.ball.is_well_formed()
    }

    /// The state before the first frame.
    pub open spec fn initial() -> World {
        World { left: initial_left(), right: initial_right(), ball: initial_ball() }
    }

    /// Creates the paddles and the ball in their starting places.
    pub fn new() -> (world: World)
        ensures
            world == World::initial(),
            world.wf(),
    {
        let (left, right) = spawn_players();
        World { left, right, ball: spawn_ball() }
    }
}

/// The left paddle at the start: inset from the left edge, vertically
/// centred, steered with W and S.
pub open spec fn initial_left() -> Paddle {
    Paddle {
        position: Vec2 { x: (-(FIELD_WIDTH / 2) + PADDLE_INSET) as i64, y: 0 },
        up_key: Key::KeyW,
        down_key: Key::KeyS,
    }
}

/// The right paddle at the start: inset from the right edge, vertically
/// centred, steered with the arrow keys.
pub open spec fn initial_right() -> Paddle {
    Paddle {
        position: Vec2 { x: (FIELD_WIDTH / 2 - PADDLE_INSET) as i64, y: 0 },
        up_key: Key::ArrowUp,
        down_key: Key::ArrowDown,
    }
}

/// The ball at the start: at the centre, flying left at 100 units per
/// second.
pub open spec fn initial_ball() -> Ball {
    Ball { position: Vec2 { x: 0, y: 0 }, velocity: Velocity { x: -100i32, y: 0 } }
}

/// Creates the two paddles, left one first.
pub fn spawn_players() -> (paddles: (Paddle, Paddle))
    ensures
        paddles.0 == initial_left(),
        paddles.1 == initial_right(),
        paddles.0.wf(),
        paddles.1.wf(),
{
    let left = Paddle {
        position: Vec2 { x: -(FIELD_WIDTH / 2) + PADDLE_INSET, y: 0 },
        up_key: Key::KeyW,
        down_key: Key::KeyS,
    };
    let right = Paddle {
        position: Vec2 { x: FIELD_WIDTH / 2 - PADDLE_INSET, y: 0 },
        up_key: Key::ArrowUp,
        down_key: Key::ArrowDown,
    };
    (left, right)
}

/// Creates the ball.
pub fn spawn_ball() -> (ball: Ball)
    ensures
        ball == initial_ball(),
        ball.wf(),
{
    Ball { position: Vec2 { x: 0, y: 0 }, velocity: Velocity { x: -100i32, y: 0 } }
}

} // verus!
