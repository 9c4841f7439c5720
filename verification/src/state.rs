use vstd::prelude::*;

use crate::config::{BALL_SPEED, DIM_MAX, PADDING, RACKET_WIDTH_HALF, SPEED_MAX};
use crate::geometry::Vec2;
use crate::relaunch::randomize_vec;

verus! {

/// A snapshot of the four movement keys for one frame: whether each of the
/// left player's and the right player's "up" and "down" keys is held.
#[derive(Clone, Copy, Debug, PartialEq, Eq, Structural)]
pub struct Input {
    pub left_up: bool,
    pub left_down: bool,
    pub right_up: bool,
    pub right_down: bool,
}

impl Input {
    /// The snapshot with no key held.
    pub fn none() -> (r: Input)
        ensures
            !r.left_up,
            !r.left_down,
            !r.right_up,
            !r.right_down,
    {
        Input { left_up: false, left_down: false, right_up: false, right_down: false }
    }
}

/// The playable area for one frame, in thousandths of a unit.  It is read
/// anew every frame (the window may resize) and never mutated by the step.
#[derive(Clone, Copy, Debug, PartialEq, Eq, Structural)]
pub struct Arena {
    pub width: i64,
    pub height: i64,
}

impl Arena {
    /// Whether the dimensions are ones the simulation accepts.
    pub open spec fn valid(self) -> bool {
        &&& 0 <= self.width <= DIM_MAX
        &&& 0 <= self.height <= DIM_MAX
    }
}

/// The whole game state: both paddle centers, both scores, and the ball's
/// center and velocity.  Positions are in thousandths of a unit, velocities
/// in thousandths of a unit per second.
#[derive(Clone, Copy, Debug, PartialEq, Eq, Structural)]
pub struct GameState {
    pub left_paddle: Vec2,
    pub right_paddle: Vec2,
    pub left_score: u32,
    pub right_score: u32,
    pub ball_pos: Vec2,
    pub ball_velocity: Vec2,
}

impl GameState {
    /// Bounds under which every step's arithmetic fits in `i64`; established
    /// by [`GameState::new`] and preserved by every step.
    pub open spec fn well_formed(self) -> bool {
        &&& -DIM_MAX <= self.left_paddle.x <= DIM_MAX
        &&& -DIM_MAX <= self.left_paddle.y <= DIM_MAX
        &&& -DIM_MAX <= self.right_paddle.x <= DIM_MAX
        &&& -DIM_MAX <= self.right_paddle.y <= DIM_MAX
        &&& -DIM_MAX <= self.ball_pos.x <= DIM_MAX
        &&& -DIM_MAX <= self.ball_pos.y <= DIM_MAX
        &&& -SPEED_MAX <= self.ball_velocity.x <= SPEED_MAX
        &&& -SPEED_MAX <= self.ball_velocity.y <= SPEED_MAX
    }

    /// The starting state: paddles centered vertically and inset `PADDING`
    /// from their edges, ball at the arena's center with scores at zero, and
    /// the launch direction chosen by the two flags (rightward on
    /// `launch_right`, downward on `launch_down`).
    pub fn new(arena: &Arena, launch_right: bool, launch_down: bool) -> (r: GameState)
        requires
            arena.valid(),
        ensures
            r.left_paddle.x == RACKET_WIDTH_HALF + PADDING,
            r.left_paddle.y == arena.height as int / 2,
            r.right_paddle.x == arena.width - RACKET_WIDTH_HALF - PADDING,
            r.right_paddle.y == arena.height as int / 2,
            r.left_score == 0,
            r.right_score == 0,
            r.ball_pos.x == arena.width as int / 2,
            r.ball_pos.y == arena.height as int / 2,
            r.ball_velocity.x == if launch_right { BALL_SPEED as int } else { -BALL_SPEED as int },
            r.ball_velocity.y == if launch_down { BALL_SPEED as int } else { -BALL_SPEED as int },
            r.well_formed(),
    {
        let half_w = arena.width / 2;
        let half_h = arena.height / 2;
        GameState {
            left_paddle: Vec2 { x: RACKET_WIDTH_HALF + PADDING, y: half_h },
            right_paddle: Vec2 { x: arena.width - RACKET_WIDTH_HALF - PADDING, y: half_h },
            left_score: 0,
            right_score: 0,
            ball_pos: Vec2 { x: half_w, y: half_h },
            ball_velocity: Vec2 {
                x: if launch_right { BALL_SPEED } else { -BALL_SPEED },
                y: if launch_down { BALL_SPEED } else { -BALL_SPEED },
            },
        }
    }

    /// The starting state with the launch direction drawn from the
    /// process-wide random source: every field but the velocity's signs is
    /// fixed, and each velocity component has magnitude `BALL_SPEED`.
    pub fn new_random(arena: &Arena) -> (r: GameState)
        requires
            arena.valid(),
        ensures
            r.left_paddle.x == RACKET_WIDTH_HALF + PADDING,
            r.left_paddle.y == arena.height as int / 2,
            r.right_paddle.x == arena.width - RACKET_WIDTH_HALF - PADDING,
            r.right_paddle.y == arena.height as int / 2,
            r.left_score == 0,
            r.right_score == 0,
            r.ball_pos.x == arena.width as int / 2,
            r.ball_pos.y == arena.height as int / 2,
            r.ball_velocity.x == BALL_SPEED || r.ball_velocity.x == -BALL_SPEED,
            r.ball_velocity.y == BALL_SPEED || r.ball_velocity.y == -BALL_SPEED,
            r.well_formed(),
    {
        let mut state = GameState::new(arena, true, true);
        let mut velocity = Vec2 { x: 0, y: 0 };
        randomize_vec(&mut velocity, BALL_SPEED, BALL_SPEED);
        state.ball_velocity = velocity;
        state
    }
}

} // verus!
