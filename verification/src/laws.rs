use vstd::prelude::*;

use crate::config::{BALL_SIZE, BALL_SIZE_HALF, BALL_SPEED, RACKET_HEIGHT, RACKET_HEIGHT_HALF};
use crate::geometry::{abs_spec, clamp_spec, displacement};
use crate::state::{GameState, Input};
use crate::step::{
    ball_hits_left, ball_hits_right, ball_x_integrated, left_scores, right_scores, scored,
    step_rel,
};

verus! {

/// In every frame of an arena at least one paddle tall, both paddles end the
/// frame with their centers clamped inside
/// `[RACKET_HEIGHT_HALF, arena_h - RACKET_HEIGHT_HALF]`.
pub proof fn lemma_paddles_stay_in_bounds(
    pre: GameState,
    post: GameState,
    input: Input,
    dt: int,
    arena_w: int,
    arena_h: int,
    launch_right: bool,
    launch_down: bool,
)
    requires
        step_rel(pre, post, input, dt, arena_w, arena_h, launch_right, launch_down),
        RACKET_HEIGHT <= arena_h,
    ensures
        RACKET_HEIGHT_HALF <= post.left_paddle.y <= arena_h - RACKET_HEIGHT_HALF,
        RACKET_HEIGHT_HALF <= post.right_paddle.y <= arena_h - RACKET_HEIGHT_HALF,
{
}

/// In every frame of an arena at least one ball tall, the ball ends the
/// frame with its center inside `[BALL_SIZE_HALF, arena_h - BALL_SIZE_HALF]`.
pub proof fn lemma_ball_stays_in_vertical_bounds(
    pre: GameState,
    post: GameState,
    input: Input,
    dt: int,
    arena_w: int,
    arena_h: int,
    launch_right: bool,
    launch_down: bool,
)
    requires
        step_rel(pre, post, input, dt, arena_w, arena_h, launch_right, launch_down),
        BALL_SIZE <= arena_h,
    ensures
        BALL_SIZE_HALF <= post.ball_pos.y <= arena_h - BALL_SIZE_HALF,
{
}

/// No frame drives both velocity components to zero: bounces only flip
/// signs, and a relaunch sets both magnitudes to `BALL_SPEED`, so a ball
/// that starts a frame with some motion ends it with some motion.
pub proof fn lemma_velocity_never_zeroed(
    pre: GameState,
    post: GameState,
    input: Input,
    dt: int,
    arena_w: int,
    arena_h: int,
    launch_right: bool,
    launch_down: bool,
)
    requires
        step_rel(pre, post, input, dt, arena_w, arena_h, launch_right, launch_down),
        !(pre.ball_velocity.x == 0 && pre.ball_velocity.y == 0),
    ensures
        !(post.ball_velocity.x == 0 && post.ball_velocity.y == 0),
{
}

/// When the integrated ball crosses below `x == 0`, the right player's score
/// rises by exactly one, the left player's does not move, the ball sits at
/// the arena's center, and both velocity components have magnitude
/// `BALL_SPEED` (in particular, neither is zero).
pub proof fn lemma_right_player_scores(
    pre: GameState,
    post: GameState,
    input: Input,
    dt: int,
    arena_w: int,
    arena_h: int,
    launch_right: bool,
    launch_down: bool,
)
    requires
        step_rel(pre, post, input, dt, arena_w, arena_h, launch_right, launch_down),
        right_scores(pre, dt),
        0 <= arena_w,
        BALL_SIZE <= arena_h,
    ensures
        post.right_score == pre.right_score + 1,
        post.left_score == pre.left_score,
        post.ball_pos.x == arena_w / 2,
        post.ball_pos.y == arena_h / 2,
        abs_spec(post.ball_velocity.x as int) == BALL_SPEED,
        abs_spec(post.ball_velocity.y as int) == BALL_SPEED,
{
}

/// When the integrated ball crosses above the arena's width, the left
/// player's score rises by exactly one, the right player's does not move,
/// the ball sits at the arena's center, and both velocity components have
/// magnitude `BALL_SPEED`.
pub proof fn lemma_left_player_scores(
    pre: GameState,
    post: GameState,
    input: Input,
    dt: int,
    arena_w: int,
    arena_h: int,
    launch_right: bool,
    launch_down: bool,
)
    requires
        step_rel(pre, post, input, dt, arena_w, arena_h, launch_right, launch_down),
        ball_x_integrated(pre, dt) > arena_w,
        0 <= arena_w,
        BALL_SIZE <= arena_h,
    ensures
        post.left_score == pre.left_score + 1,
        post.right_score == pre.right_score,
        post.ball_pos.x == arena_w / 2,
        post.ball_pos.y == arena_h / 2,
        abs_spec(post.ball_velocity.x as int) == BALL_SPEED,
        abs_spec(post.ball_velocity.y as int) == BALL_SPEED,
{
}

/// A ball that starts a frame on the top boundary moving upward, far enough
/// to move at all this frame and without scoring, ends the frame back on
/// the boundary and moving downward (positive y).
pub proof fn lemma_top_wall_bounce(
    pre: GameState,
    post: GameState,
    input: Input,
    dt: int,
    arena_w: int,
    arena_h: int,
    launch_right: bool,
    launch_down: bool,
)
    requires
        step_rel(pre, post, input, dt, arena_w, arena_h, launch_right, launch_down),
        pre.ball_pos.y == BALL_SIZE_HALF,
        pre.ball_velocity.y < 0,
        displacement(pre.ball_velocity.y as int, dt) < 0,
        !scored(pre, dt, arena_w),
    ensures
        post.ball_pos.y == BALL_SIZE_HALF,
        post.ball_velocity.y > 0,
{
}

/// A ball that ends up overlapping the left paddle (where the frame tests
/// the overlap, after motion and wall response) while it was moving leftward
/// leaves the frame moving rightward, away from that paddle.
pub proof fn lemma_left_paddle_repels(
    pre: GameState,
    post: GameState,
    input: Input,
    dt: int,
    arena_w: int,
    arena_h: int,
    launch_right: bool,
    launch_down: bool,
)
    requires
        step_rel(pre, post, input, dt, arena_w, arena_h, launch_right, launch_down),
        pre.ball_velocity.x < 0,
        ball_hits_left(pre, input, dt, arena_w, arena_h),
        !ball_hits_right(pre, input, dt, arena_w, arena_h),
    ensures
        post.ball_velocity.x > 0,
{
}

/// At most one side can score in a frame: the two branches test opposite
/// edges of the arena, and the ball cannot be past both at once.
pub proof fn lemma_scoring_branches_exclusive(pre: GameState, dt: int, arena_w: int)
    requires
        0 <= arena_w,
    ensures
        !(right_scores(pre, dt) && left_scores(pre, dt, arena_w)),
{
}

/// Scores never decrease, and each rises by at most one per frame.
pub proof fn lemma_scores_monotonic(
    pre: GameState,
    post: GameState,
    input: Input,
    dt: int,
    arena_w: int,
    arena_h: int,
    launch_right: bool,
    launch_down: bool,
)
    requires
        step_rel(pre, post, input, dt, arena_w, arena_h, launch_right, launch_down),
    ensures
        pre.left_score <= post.left_score <= pre.left_score + 1,
        pre.right_score <= post.right_score <= pre.right_score + 1,
{
}

/// Holding a paddle's "up" and "down" keys in the same frame cancels to no
/// net motion: the paddle's center is merely clamped, and so does not move
/// at all when it already sat inside the arena.
pub proof fn lemma_opposed_keys_cancel(
    pre: GameState,
    post: GameState,
    input: Input,
    dt: int,
    arena_w: int,
    arena_h: int,
    launch_right: bool,
    launch_down: bool,
)
    requires
        step_rel(pre, post, input, dt, arena_w, arena_h, launch_right, launch_down),
    ensures
        input.left_up && input.left_down ==> post.left_paddle.y == clamp_spec(
            pre.left_paddle.y as int,
            RACKET_HEIGHT_HALF as int,
            arena_h - RACKET_HEIGHT_HALF,
        ),
        input.left_up && input.left_down && RACKET_HEIGHT_HALF <= pre.left_paddle.y <= arena_h
            - RACKET_HEIGHT_HALF ==> post.left_paddle.y == pre.left_paddle.y,
        input.right_up && input.right_down ==> post.right_paddle.y == clamp_spec(
            pre.right_paddle.y as int,
            RACKET_HEIGHT_HALF as int,
            arena_h - RACKET_HEIGHT_HALF,
        ),
        input.right_up && input.right_down && RACKET_HEIGHT_HALF <= pre.right_paddle.y <= arena_h
            - RACKET_HEIGHT_HALF ==> post.right_paddle.y == pre.right_paddle.y,
{
}

} // verus!
