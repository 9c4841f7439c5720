use vstd::prelude::*;

use crate::config::{
    BALL_SIZE_HALF, BALL_SPEED, DIM_MAX, DT_MAX_MS, PLAYER_SPEED, RACKET_HEIGHT_HALF,
};
use crate::geometry::{
    abs_component, abs_spec, clamp, clamp_spec, displacement, hits_paddle, paddle_overlaps,
    scaled_displacement, Vec2,
};
use crate::relaunch::coin_flip;
use crate::state::{Arena, GameState, Input};

verus! {

/// Net vertical distance a paddle covers in one frame: `-PLAYER_SPEED * dt`
/// while its "up" key is held, `+PLAYER_SPEED * dt` while its "down" key is
/// held; both held cancel to zero.
pub open spec fn paddle_delta(up: bool, down: bool, dt: int) -> int {
    (if down {
        displacement(PLAYER_SPEED as int, dt)
    } else {
        0
    }) - (if up {
        displacement(PLAYER_SPEED as int, dt)
    } else {
        0
    })
}

/// A paddle's vertical center after one frame: moved by [`paddle_delta`] and
/// clamped into `[RACKET_HEIGHT_HALF, arena_h - RACKET_HEIGHT_HALF]`.
pub open spec fn paddle_y_after(y: int, up: bool, down: bool, dt: int, arena_h: int) -> int {
    clamp_spec(
        y + paddle_delta(up, down, dt),
        RACKET_HEIGHT_HALF as int,
        arena_h - RACKET_HEIGHT_HALF,
    )
}

/// The ball's horizontal center after plain Euler integration.
pub open spec fn ball_x_integrated(pre: GameState, dt: int) -> int {
    pre.ball_pos.x + displacement(pre.ball_velocity.x as int, dt)
}

/// The ball's vertical center after plain Euler integration.
pub open spec fn ball_y_integrated(pre: GameState, dt: int) -> int {
    pre.ball_pos.y + displacement(pre.ball_velocity.y as int, dt)
}

/// The right player scores when the integrated ball crosses below `x == 0`.
pub open spec fn right_scores(pre: GameState, dt: int) -> bool {
    ball_x_integrated(pre, dt) < 0
}

/// The left player scores when the integrated ball crosses above the arena's
/// width; the two scoring branches exclude each other by construction.
pub open spec fn left_scores(pre: GameState, dt: int, arena_w: int) -> bool {
    !right_scores(pre, dt) && ball_x_integrated(pre, dt) > arena_w
}

/// Whether either player scores this frame.
pub open spec fn scored(pre: GameState, dt: int, arena_w: int) -> bool {
    right_scores(pre, dt) || left_scores(pre, dt, arena_w)
}

/// The ball's horizontal center after the scoring check: reset to the
/// arena's horizontal center on a score, else the integrated position.
pub open spec fn ball_x_after_score(pre: GameState, dt: int, arena_w: int) -> int {
    if scored(pre, dt, arena_w) {
        arena_w / 2
    } else {
        ball_x_integrated(pre, dt)
    }
}

/// The ball's vertical center after the scoring check: reset to the arena's
/// vertical center on a score, else the integrated position.
pub open spec fn ball_y_after_score(pre: GameState, dt: int, arena_w: int, arena_h: int) -> int {
    if scored(pre, dt, arena_w) {
        arena_h / 2
    } else {
        ball_y_integrated(pre, dt)
    }
}

/// The ball's horizontal velocity after the scoring check: relaunched at
/// `BALL_SPEED` toward the side picked by `launch_right` on a score, else
/// unchanged.
pub open spec fn vel_x_after_score(pre: GameState, dt: int, arena_w: int, launch_right: bool) -> int {
    if scored(pre, dt, arena_w) {
        if launch_right {
            BALL_SPEED as int
        } else {
            -BALL_SPEED as int
        }
    } else {
        pre.ball_velocity.x as int
    }
}

/// The ball's vertical velocity after the scoring check: relaunched at
/// `BALL_SPEED` toward the side picked by `launch_down` on a score, else
/// unchanged.
pub open spec fn vel_y_after_score(pre: GameState, dt: int, arena_w: int, launch_down: bool) -> int {
    if scored(pre, dt, arena_w) {
        if launch_down {
            BALL_SPEED as int
        } else {
            -BALL_SPEED as int
        }
    } else {
        pre.ball_velocity.y as int
    }
}

/// The ball's vertical center at the frame's end: the post-scoring position
/// clamped to the horizontal walls.
pub open spec fn ball_y_final(pre: GameState, dt: int, arena_w: int, arena_h: int) -> int {
    clamp_spec(
        ball_y_after_score(pre, dt, arena_w, arena_h),
        BALL_SIZE_HALF as int,
        arena_h - BALL_SIZE_HALF,
    )
}

/// The ball's vertical velocity at the frame's end: forced downward (toward
/// larger y) off the top wall, upward off the bottom wall, else the
/// post-scoring velocity.
pub open spec fn vel_y_final(
    pre: GameState,
    dt: int,
    arena_w: int,
    arena_h: int,
    launch_down: bool,
) -> int {
    let y = ball_y_after_score(pre, dt, arena_w, arena_h);
    let vy = vel_y_after_score(pre, dt, arena_w, launch_down);
    if y < BALL_SIZE_HALF {
        abs_spec(vy)
    } else if y > arena_h - BALL_SIZE_HALF {
        -abs_spec(vy)
    } else {
        vy
    }
}

/// Whether the ball, where the frame's collision test runs (after scoring
/// and wall response), overlaps the left paddle at its post-motion position.
pub open spec fn ball_hits_left(
    pre: GameState,
    input: Input,
    dt: int,
    arena_w: int,
    arena_h: int,
) -> bool {
    hits_paddle(
        ball_x_after_score(pre, dt, arena_w),
        ball_y_final(pre, dt, arena_w, arena_h),
        pre.left_paddle.x as int,
        paddle_y_after(pre.left_paddle.y as int, input.left_up, input.left_down, dt, arena_h),
    )
}

/// Whether the ball, where the frame's collision test runs, overlaps the
/// right paddle at its post-motion position.
pub open spec fn ball_hits_right(
    pre: GameState,
    input: Input,
    dt: int,
    arena_w: int,
    arena_h: int,
) -> bool {
    hits_paddle(
        ball_x_after_score(pre, dt, arena_w),
        ball_y_final(pre, dt, arena_w, arena_h),
        pre.right_paddle.x as int,
        paddle_y_after(pre.right_paddle.y as int, input.right_up, input.right_down, dt, arena_h),
    )
}

/// The ball's horizontal velocity at the frame's end: forced away from a
/// paddle it overlaps (leftward off the right paddle, which is tested
/// second and so wins when both overlap), else the post-scoring velocity.
pub open spec fn vel_x_final(
    pre: GameState,
    input: Input,
    dt: int,
    arena_w: int,
    arena_h: int,
    launch_right: bool,
) -> int {
    let vx = vel_x_after_score(pre, dt, arena_w, launch_right);
    if ball_hits_right(pre, input, dt, arena_w, arena_h) {
        -abs_spec(vx)
    } else if ball_hits_left(pre, input, dt, arena_w, arena_h) {
        abs_spec(vx)
    } else {
        vx
    }
}

/// The whole frame transition: how `post` arises from `pre` under the held
/// keys, the elapsed time `dt` (milliseconds), the arena dimensions and the
/// two relaunch direction flags.  [`GameState::advance`] realizes exactly
/// this relation.
pub open spec fn step_rel(
    pre: GameState,
    post: GameState,
    input: Input,
    dt: int,
    arena_w: int,
    arena_h: int,
    launch_right: bool,
    launch_down: bool,
) -> bool {
    &&& post.left_paddle.x == pre.left_paddle.x
    &&& post.left_paddle.y == paddle_y_after(
        pre.left_paddle.y as int,
        input.left_up,
        input.left_down,
        dt,
        arena_h,
    )
    &&& post.right_paddle.x == pre.right_paddle.x
    &&& post.right_paddle.y == paddle_y_after(
        pre.right_paddle.y as int,
        input.right_up,
        input.right_down,
        dt,
        arena_h,
    )
    &&& post.right_score == pre.right_score + (if right_scores(pre, dt) {
        1int
    } else {
        0int
    })
    &&& post.left_score == pre.left_score + (if left_scores(pre, dt, arena_w) {
        1int
    } else {
        0int
    })
    &&& post.ball_pos.x == ball_x_after_score(pre, dt, arena_w)
    &&& post.ball_pos.y == ball_y_final(pre, dt, arena_w, arena_h)
    &&& post.ball_velocity.x == vel_x_final(pre, input, dt, arena_w, arena_h, launch_right)
    &&& post.ball_velocity.y == vel_y_final(pre, dt, arena_w, arena_h, launch_down)
}

/// Move one paddle for one frame: shift its center by [`paddle_delta`] and
/// clamp it to the arena.
pub fn move_racket(pos: &mut Vec2, up: bool, down: bool, dt_ms: i64, arena_h: i64)
    requires
        -DIM_MAX <= old(pos).y <= DIM_MAX,
        0 <= dt_ms <= DT_MAX_MS,
        0 <= arena_h <= DIM_MAX,
    ensures
        final(pos).x == old(pos).x,
        final(pos).y == paddle_y_after(old(pos).y as int, up, down, dt_ms as int, arena_h as int),
        -DIM_MAX <= final(pos).y <= DIM_MAX,
{
    let step = scaled_displacement(PLAYER_SPEED, dt_ms);
    if up {
        pos.y = pos.y - step;
    }
    if down {
        pos.y = pos.y + step;
    }
    clamp(&mut pos.y, RACKET_HEIGHT_HALF, arena_h - RACKET_HEIGHT_HALF);
}

impl GameState {
    /// Advance the game by one frame, deterministically: the held keys move
    /// and clamp the paddles, the ball integrates over `dt_ms` milliseconds,
    /// a crossing past either vertical edge scores and recenters the ball
    /// with a fresh `BALL_SPEED` velocity in the direction the two flags
    /// pick, the horizontal walls reflect it, and an overlapped paddle
    /// pushes it away.  The new state is pinned down exactly by
    /// [`step_rel`].
    pub fn advance(
        &mut self,
        input: &Input,
        dt_ms: i64,
        arena: &Arena,
        launch_right: bool,
        launch_down: bool,
    )
        requires
            old(self).well_formed(),
            0 <= dt_ms <= DT_MAX_MS,
            arena.valid(),
            old(self).left_score < u32::MAX,
            old(self).right_score < u32::MAX,
        ensures
            step_rel(
                *old(self),
                *final(self),
                *input,
                dt_ms as int,
                arena.width as int,
                arena.height as int,
                launch_right,
                launch_down,
            ),
            final(self).well_formed(),
    {
        move_racket(&mut self.left_paddle, input.left_up, input.left_down, dt_ms, arena.height);
        move_racket(&mut self.right_paddle, input.right_up, input.right_down, dt_ms, arena.height);

        let dx = scaled_displacement(self.ball_velocity.x, dt_ms);
        let dy = scaled_displacement(self.ball_velocity.y, dt_ms);
        self.ball_pos.x = self.ball_pos.x + dx;
        self.ball_pos.y = self.ball_pos.y + dy;

        if self.ball_pos.x < 0 {
            self.ball_pos.x = arena.width / 2;
            self.ball_pos.y = arena.height / 2;
            self.ball_velocity.x = if launch_right {
                BALL_SPEED
            } else {
                -BALL_SPEED
            };
            self.ball_velocity.y = if launch_down {
                BALL_SPEED
            } else {
                -BALL_SPEED
            };
            self.right_score = self.right_score + 1;
        } else if self.ball_pos.x > arena.width {
            self.ball_pos.x = arena.width / 2;
            self.ball_pos.y = arena.height / 2;
            self.ball_velocity.x = if launch_right {
                BALL_SPEED
            } else {
                -BALL_SPEED
            };
            self.ball_velocity.y = if launch_down {
                BALL_SPEED
            } else {
                -BALL_SPEED
            };
            self.left_score = self.left_score + 1;
        }

        if self.ball_pos.y < BALL_SIZE_HALF {
            self.ball_pos.y = BALL_SIZE_HALF;
            self.ball_velocity.y = abs_component(self.ball_velocity.y);
        } else if self.ball_pos.y > arena.height - BALL_SIZE_HALF {
            self.ball_pos.y = arena.height - BALL_SIZE_HALF;
            self.ball_velocity.y = -abs_component(self.ball_velocity.y);
        }

        if paddle_overlaps(&self.ball_pos, &self.left_paddle) {
            self.ball_velocity.x = abs_component(self.ball_velocity.x);
        }
        if paddle_overlaps(&self.ball_pos, &self.right_paddle) {
            self.ball_velocity.x = -abs_component(self.ball_velocity.x);
        }
    }

    /// Advance the game by one frame, drawing the relaunch direction from
    /// the process-wide random source: some pair of direction flags relates
    /// the old state to the new one by [`step_rel`], and when no score
    /// happens the flags are irrelevant, so the frame is then deterministic.
    pub fn advance_random(&mut self, input: &Input, dt_ms: i64, arena: &Arena)
        requires
            old(self).well_formed(),
            0 <= dt_ms <= DT_MAX_MS,
            arena.valid(),
            old(self).left_score < u32::MAX,
            old(self).right_score < u32::MAX,
        ensures
            exists|launch_right: bool, launch_down: bool|
                step_rel(
                    *old(self),
                    *final(self),
                    *input,
                    dt_ms as int,
                    arena.width as int,
                    arena.height as int,
                    launch_right,
                    launch_down,
                ),
            final(self).well_formed(),
    {
        let launch_right = coin_flip();
        let launch_down = coin_flip();
        self.advance(input, dt_ms, arena, launch_right, launch_down);
    }
}

} // verus!
