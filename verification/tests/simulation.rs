use pong::config::{BALL_SPEED, UNIT};
use pong::geometry::{abs_component, clamp, paddle_overlaps, scaled_displacement, Vec2};
use pong::relaunch::randomize_vec;
use pong::state::{Arena, GameState, Input};
use pong::step::move_racket;

fn arena_800_600() -> Arena {
    Arena { width: 800 * UNIT, height: 600 * UNIT }
}

#[test]
fn new_centers_paddles_and_ball() {
    let arena = arena_800_600();
    let s = GameState::new(&arena, true, false);
    assert_eq!(s.left_paddle, Vec2 { x: 52_500, y: 300 * UNIT });
    assert_eq!(s.right_paddle, Vec2 { x: 747_500, y: 300 * UNIT });
    assert_eq!(s.left_score, 0);
    assert_eq!(s.right_score, 0);
    assert_eq!(s.ball_pos, Vec2 { x: 400 * UNIT, y: 300 * UNIT });
    assert_eq!(s.ball_velocity, Vec2 { x: BALL_SPEED, y: -BALL_SPEED });
}

#[test]
fn new_random_launches_diagonally() {
    let arena = arena_800_600();
    let s = GameState::new_random(&arena);
    assert_eq!(s.ball_pos, Vec2 { x: 400 * UNIT, y: 300 * UNIT });
    assert_eq!(s.left_score, 0);
    assert_eq!(s.right_score, 0);
    assert!(s.ball_velocity.x == BALL_SPEED || s.ball_velocity.x == -BALL_SPEED);
    assert!(s.ball_velocity.y == BALL_SPEED || s.ball_velocity.y == -BALL_SPEED);
}

#[test]
fn scenario_ball_past_right_edge_scores_left() {
    // Arena 800x600, ball speed 300 units/s, ball at (795, 300) moving
    // (300, 0), one tenth of a second with no keys held.
    let arena = arena_800_600();
    let mut s = GameState::new(&arena, true, true);
    s.ball_pos = Vec2 { x: 795 * UNIT, y: 300 * UNIT };
    s.ball_velocity = Vec2 { x: 300 * UNIT, y: 0 };
    let input = Input::none();
    s.advance(&input, 100, &arena, true, false);
    assert_eq!(s.left_score, 1);
    assert_eq!(s.right_score, 0);
    assert_eq!(s.ball_pos, Vec2 { x: 400 * UNIT, y: 300 * UNIT });
    assert_eq!(s.ball_velocity, Vec2 { x: BALL_SPEED, y: -BALL_SPEED });
}

#[test]
fn ball_past_left_edge_scores_right() {
    let arena = arena_800_600();
    let mut s = GameState::new(&arena, true, true);
    s.ball_pos = Vec2 { x: 5 * UNIT, y: 300 * UNIT };
    s.ball_velocity = Vec2 { x: -300 * UNIT, y: 0 };
    let input = Input::none();
    s.advance(&input, 100, &arena, false, true);
    assert_eq!(s.right_score, 1);
    assert_eq!(s.left_score, 0);
    assert_eq!(s.ball_pos, Vec2 { x: 400 * UNIT, y: 300 * UNIT });
    assert_eq!(s.ball_velocity, Vec2 { x: -BALL_SPEED, y: BALL_SPEED });
}

#[test]
fn top_wall_reflects_ball_downward() {
    let arena = arena_800_600();
    let mut s = GameState::new(&arena, true, true);
    s.ball_pos = Vec2 { x: 400 * UNIT, y: 15 * UNIT };
    s.ball_velocity = Vec2 { x: 0, y: -300 * UNIT };
    let input = Input::none();
    s.advance(&input, 100, &arena, true, true);
    assert_eq!(s.ball_pos, Vec2 { x: 400 * UNIT, y: 15 * UNIT });
    assert_eq!(s.ball_velocity, Vec2 { x: 0, y: 300 * UNIT });
    assert!(!(s.ball_velocity.x == 0 && s.ball_velocity.y == 0));
}

#[test]
fn bottom_wall_reflects_ball_upward() {
    let arena = arena_800_600();
    let mut s = GameState::new(&arena, true, true);
    s.ball_pos = Vec2 { x: 400 * UNIT, y: 585 * UNIT };
    s.ball_velocity = Vec2 { x: 0, y: 300 * UNIT };
    let input = Input::none();
    s.advance(&input, 100, &arena, true, true);
    assert_eq!(s.ball_pos, Vec2 { x: 400 * UNIT, y: 585 * UNIT });
    assert_eq!(s.ball_velocity, Vec2 { x: 0, y: -300 * UNIT });
}

#[test]
fn left_paddle_sends_ball_rightward() {
    let arena = arena_800_600();
    let mut s = GameState::new(&arena, true, true);
    // Overlapping the left paddle at (52.5, 300), moving leftward.
    s.ball_pos = Vec2 { x: 60 * UNIT, y: 300 * UNIT };
    s.ball_velocity = Vec2 { x: -300 * UNIT, y: 0 };
    let input = Input::none();
    s.advance(&input, 0, &arena, true, true);
    assert_eq!(s.ball_pos, Vec2 { x: 60 * UNIT, y: 300 * UNIT });
    assert_eq!(s.ball_velocity.x, 300 * UNIT);
}

#[test]
fn right_paddle_sends_ball_leftward() {
    let arena = arena_800_600();
    let mut s = GameState::new(&arena, true, true);
    // Overlapping the right paddle at (747.5, 300), moving rightward.
    s.ball_pos = Vec2 { x: 740 * UNIT, y: 300 * UNIT };
    s.ball_velocity = Vec2 { x: 300 * UNIT, y: 0 };
    let input = Input::none();
    s.advance(&input, 0, &arena, true, true);
    assert_eq!(s.ball_velocity.x, -300 * UNIT);
}

#[test]
fn opposed_keys_leave_paddles_still() {
    let arena = arena_800_600();
    let mut s = GameState::new(&arena, true, true);
    let input = Input { left_up: true, left_down: true, right_up: true, right_down: true };
    s.advance(&input, 100, &arena, true, true);
    assert_eq!(s.left_paddle.y, 300 * UNIT);
    assert_eq!(s.right_paddle.y, 300 * UNIT);
}

#[test]
fn paddle_clamps_at_top() {
    let arena = arena_800_600();
    let mut s = GameState::new(&arena, true, true);
    let input = Input { left_up: true, left_down: false, right_up: false, right_down: false };
    // Ten seconds upward would leave the arena; the paddle stops at its
    // half-height.
    s.advance(&input, 10_000, &arena, true, true);
    assert_eq!(s.left_paddle.y, 50 * UNIT);
    assert_eq!(s.right_paddle.y, 300 * UNIT);
}

#[test]
fn paddle_clamps_at_bottom() {
    let arena = arena_800_600();
    let mut s = GameState::new(&arena, true, true);
    let input = Input { left_up: false, left_down: false, right_up: false, right_down: true };
    s.advance(&input, 10_000, &arena, true, true);
    assert_eq!(s.right_paddle.y, 550 * UNIT);
}

#[test]
fn move_racket_covers_speed_times_time() {
    let mut pos = Vec2 { x: 100 * UNIT, y: 300 * UNIT };
    move_racket(&mut pos, true, false, 100, 600 * UNIT);
    assert_eq!(pos, Vec2 { x: 100 * UNIT, y: 270 * UNIT });
    move_racket(&mut pos, false, true, 100, 600 * UNIT);
    assert_eq!(pos, Vec2 { x: 100 * UNIT, y: 300 * UNIT });
}

#[test]
fn advance_without_score_is_deterministic() {
    let arena = arena_800_600();
    let mut s = GameState::new(&arena, true, true);
    s.ball_velocity = Vec2 { x: 100 * UNIT, y: 50 * UNIT };
    let input = Input::none();
    s.advance_random(&input, 100, &arena);
    assert_eq!(s.ball_pos, Vec2 { x: 410 * UNIT, y: 305 * UNIT });
    assert_eq!(s.ball_velocity, Vec2 { x: 100 * UNIT, y: 50 * UNIT });
    assert_eq!(s.left_score, 0);
    assert_eq!(s.right_score, 0);
}

#[test]
fn advance_random_relaunches_at_ball_speed() {
    let arena = arena_800_600();
    let mut s = GameState::new(&arena, true, true);
    s.ball_pos = Vec2 { x: 5 * UNIT, y: 300 * UNIT };
    s.ball_velocity = Vec2 { x: -300 * UNIT, y: 0 };
    let input = Input::none();
    s.advance_random(&input, 100, &arena);
    assert_eq!(s.right_score, 1);
    assert_eq!(s.ball_pos, Vec2 { x: 400 * UNIT, y: 300 * UNIT });
    assert!(s.ball_velocity.x == BALL_SPEED || s.ball_velocity.x == -BALL_SPEED);
    assert!(s.ball_velocity.y == BALL_SPEED || s.ball_velocity.y == -BALL_SPEED);
}

#[test]
fn clamp_forces_into_interval() {
    let mut v: i64 = 10;
    clamp(&mut v, 20, 30);
    assert_eq!(v, 20);
    clamp(&mut v, 0, 15);
    assert_eq!(v, 15);
    clamp(&mut v, 0, 100);
    assert_eq!(v, 15);
}

#[test]
fn displacement_truncates_toward_zero() {
    assert_eq!(scaled_displacement(300 * UNIT, 1), 300);
    assert_eq!(scaled_displacement(-300 * UNIT, 3), -900);
    assert_eq!(scaled_displacement(999, 1), 0);
    assert_eq!(scaled_displacement(-999, 1), 0);
    assert_eq!(scaled_displacement(0, 1_000), 0);
}

#[test]
fn abs_component_flips_negatives() {
    assert_eq!(abs_component(-7), 7);
    assert_eq!(abs_component(7), 7);
    assert_eq!(abs_component(0), 0);
}

#[test]
fn paddle_overlap_is_strict() {
    let paddle = Vec2 { x: 52_500, y: 300 * UNIT };
    // The ball's box touches the paddle's right edge exactly: no overlap.
    let touching = Vec2 { x: 80 * UNIT, y: 300 * UNIT };
    assert!(!paddle_overlaps(&touching, &paddle));
    // One thousandth of a unit closer: overlap.
    let overlapping = Vec2 { x: 80 * UNIT - 1, y: 300 * UNIT };
    assert!(paddle_overlaps(&overlapping, &paddle));
}

#[test]
fn randomize_vec_keeps_magnitudes() {
    let mut v = Vec2 { x: 0, y: 0 };
    randomize_vec(&mut v, BALL_SPEED, BALL_SPEED);
    assert!(v.x == BALL_SPEED || v.x == -BALL_SPEED);
    assert!(v.y == BALL_SPEED || v.y == -BALL_SPEED);
}

#[test]
fn zero_elapsed_time_changes_nothing() {
    let arena = arena_800_600();
    let mut s = GameState::new(&arena, false, false);
    let before = s;
    let input = Input { left_up: true, left_down: false, right_up: false, right_down: true };
    s.advance(&input, 0, &arena, true, true);
    assert_eq!(s, before);
}
