use pong::entity::{spawn_ball, spawn_players, Ball, Key, Paddle, PressedKeys, World};
use pong::geometry::{
    clamp, Vec2, Velocity, FIELD_HEIGHT, FIELD_WIDTH, PADDLE_MARGIN, PADDLE_MAX_Y, PADDLE_MIN_Y,
};
use pong::movement::{ball_can_move, move_ball, move_paddle};

fn held(keys: &[Key]) -> PressedKeys {
    let mut input = PressedKeys::none();
    for key in keys {
        input.press(*key);
    }
    input
}

#[test]
fn paddle_limits_follow_from_field_and_margin() {
    assert_eq!(PADDLE_MIN_Y, -FIELD_HEIGHT / 2 + PADDLE_MARGIN);
    assert_eq!(PADDLE_MAX_Y, FIELD_HEIGHT / 2 - PADDLE_MARGIN);
    assert_eq!(PADDLE_MAX_Y, 210_000_000);
}

#[test]
fn clamp_brings_values_into_range() {
    assert_eq!(clamp(5, -10, 10), 5);
    assert_eq!(clamp(-11, -10, 10), -10);
    assert_eq!(clamp(11, -10, 10), 10);
    assert_eq!(clamp(i128::MAX, -10, 10), 10);
    assert_eq!(clamp(i128::MIN, -10, 10), -10);
}

#[test]
fn players_start_at_their_edges() {
    let (left, right) = spawn_players();
    assert_eq!(left.position, Vec2 { x: -270_000_000, y: 0 });
    assert_eq!(right.position, Vec2 { x: 270_000_000, y: 0 });
    assert_eq!(left.position.x, -(FIELD_WIDTH / 2) + 50_000_000);
    assert_eq!((left.up_key, left.down_key), (Key::KeyW, Key::KeyS));
    assert_eq!((right.up_key, right.down_key), (Key::ArrowUp, Key::ArrowDown));
    assert!(left.is_well_formed() && right.is_well_formed());
}

#[test]
fn ball_starts_at_centre_flying_left() {
    let ball = spawn_ball();
    assert_eq!(ball.position, Vec2 { x: 0, y: 0 });
    assert_eq!(ball.velocity, Velocity { x: -100, y: 0 });
    assert!(ball.is_well_formed());
}

#[test]
fn world_starts_with_spawned_entities() {
    let world = World::new();
    let (left, right) = spawn_players();
    assert_eq!(world, World { left, right, ball: spawn_ball() });
    assert!(world.is_well_formed());
}

#[test]
fn pressed_reports_held_keys_only() {
    let input = held(&[Key::KeyW, Key::ArrowDown]);
    assert!(input.pressed(Key::KeyW));
    assert!(input.pressed(Key::ArrowDown));
    assert!(!input.pressed(Key::KeyS));
    assert!(!input.pressed(Key::ArrowUp));
    assert!(!PressedKeys::none().pressed(Key::KeyW));
}

#[test]
fn paddle_moves_up_with_its_key() {
    let (mut left, mut right) = spawn_players();
    let input = held(&[Key::KeyW]);
    move_paddle(&mut left, &input, 100_000);
    move_paddle(&mut right, &input, 100_000);
    assert_eq!(left.position, Vec2 { x: -270_000_000, y: 10_000_000 });
    assert_eq!(right.position, Vec2 { x: 270_000_000, y: 0 });
}

#[test]
fn paddle_moves_down_with_its_key() {
    let (_, mut right) = spawn_players();
    move_paddle(&mut right, &held(&[Key::ArrowDown]), 250_000);
    assert_eq!(right.position.y, -25_000_000);
}

#[test]
fn both_keys_cancel_away_from_the_limits() {
    let (mut left, _) = spawn_players();
    move_paddle(&mut left, &held(&[Key::KeyW, Key::KeyS]), 100_000);
    assert_eq!(left.position.y, 0);
}

#[test]
fn both_keys_at_the_upper_limit_clamp_each_adjustment() {
    let (mut left, _) = spawn_players();
    left.position.y = PADDLE_MAX_Y;
    move_paddle(&mut left, &held(&[Key::KeyW, Key::KeyS]), 100_000);
    assert_eq!(left.position.y, PADDLE_MAX_Y - 10_000_000);
}

#[test]
fn idle_paddle_stays() {
    let (mut left, _) = spawn_players();
    left.position.y = 42;
    move_paddle(&mut left, &held(&[Key::ArrowUp]), 1_000_000);
    assert_eq!(left.position.y, 42);
    move_paddle(&mut left, &held(&[Key::KeyW]), 0);
    assert_eq!(left.position.y, 42);
}

#[test]
fn paddle_never_leaves_its_limits() {
    let (mut left, _) = spawn_players();
    let up = held(&[Key::KeyW]);
    let down = held(&[Key::KeyS]);
    let both = held(&[Key::KeyS, Key::KeyW]);
    let frames: [u64; 6] = [0, 1, 16_667, 3_000_000, 1 << 40, u64::MAX];
    for round in 0..50usize {
        for dt in frames {
            let input = match round % 3 {
                0 => &up,
                1 => &down,
                _ => &both,
            };
            move_paddle(&mut left, input, dt);
            assert!(PADDLE_MIN_Y <= left.position.y && left.position.y <= PADDLE_MAX_Y);
            assert!(left.is_well_formed());
            assert_eq!(left.position.x, -270_000_000);
        }
    }
}

#[test]
fn paddle_stops_at_the_limits_however_long_the_frame() {
    let (mut left, _) = spawn_players();
    move_paddle(&mut left, &held(&[Key::KeyW]), u64::MAX);
    assert_eq!(left.position.y, PADDLE_MAX_Y);
    move_paddle(&mut left, &held(&[Key::KeyS]), u64::MAX);
    assert_eq!(left.position.y, PADDLE_MIN_Y);
    move_paddle(&mut left, &held(&[Key::KeyW]), 2_100_000);
    assert_eq!(left.position.y, 0);
}

#[test]
fn stray_paddle_is_brought_back_once_a_key_is_held() {
    let mut paddle = Paddle {
        position: Vec2 { x: 0, y: i64::MAX },
        up_key: Key::KeyW,
        down_key: Key::KeyS,
    };
    assert!(!paddle.is_well_formed());
    move_paddle(&mut paddle, &held(&[Key::KeyW]), u64::MAX);
    assert_eq!(paddle.position.y, PADDLE_MAX_Y);
}

#[test]
fn ball_integrates_its_velocity() {
    let mut ball = spawn_ball();
    assert!(ball_can_move(&ball, 100_000));
    move_ball(&mut ball, 100_000);
    assert_eq!(ball.position, Vec2 { x: -10_000_000, y: 0 });
    assert_eq!(ball.velocity, Velocity { x: -100, y: 0 });
}

#[test]
fn ball_moves_on_both_axes() {
    let mut ball = Ball {
        position: Vec2 { x: 1_000_000, y: -2_000_000 },
        velocity: Velocity { x: 80, y: -40 },
    };
    move_ball(&mut ball, 16_667);
    assert_eq!(ball.position, Vec2 { x: 1_000_000 + 80 * 16_667, y: -2_000_000 - 40 * 16_667 });
}

#[test]
fn ball_rests_when_no_time_passes() {
    let mut ball = Ball {
        position: Vec2 { x: 7, y: 9 },
        velocity: Velocity { x: i32::MAX, y: i32::MIN },
    };
    assert!(ball_can_move(&ball, 0));
    move_ball(&mut ball, 0);
    assert_eq!(ball.position, Vec2 { x: 7, y: 9 });
}

#[test]
fn ball_cannot_move_past_the_representable_range() {
    let ball = Ball {
        position: Vec2 { x: i64::MIN + 99, y: 0 },
        velocity: Velocity { x: -100, y: 0 },
    };
    assert!(!ball_can_move(&ball, 1));
    let ball = Ball {
        position: Vec2 { x: i64::MIN + 100, y: 0 },
        velocity: Velocity { x: -100, y: 0 },
    };
    assert!(ball_can_move(&ball, 1));
    let ball = Ball { position: Vec2 { x: 0, y: 0 }, velocity: Velocity { x: 0, y: 1 } };
    assert!(!ball_can_move(&ball, u64::MAX));
    assert!(ball_can_move(&ball, i64::MAX as u64));
}
