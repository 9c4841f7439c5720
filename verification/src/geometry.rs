use vstd::prelude::*;

use crate::config::{
    BALL_SIZE_HALF, DIM_MAX, DISPLACEMENT_MAX, DT_MAX_MS, MS_PER_SECOND, RACKET_HEIGHT_HALF,
    RACKET_WIDTH_HALF, SPEED_MAX,
};

verus! {

/// A point or vector of the plane, in thousandths of a unit.
#[derive(Clone, Copy, Debug, PartialEq, Eq, Structural)]
pub struct Vec2 {
    pub x: i64,
    pub y: i64,
}

/// How a value is forced into the closed interval `[low, high]`: values below
/// `low` are raised to `low`, values above `high` are lowered to `high`
/// (checked in that order, as the step does).
pub open spec fn clamp_spec(v: int, low: int, high: int) -> int {
    if v < low {
        low
    } else if v > high {
        high
    } else {
        v
    }
}

/// Force `value` into `[low, high]` in place.
pub fn clamp(value: &mut i64, low: i64, high: i64)
    ensures
        *final(value) == clamp_spec(*old(value) as int, low as int, high as int),
{
    if *value < low {
        *value = low;
    } else if *value > high {
        *value = high;
    }
}

/// The distance covered in `dt_ms` milliseconds at `v` thousandths of a unit
/// per second: `v * dt_ms / 1000`, rounded toward zero.
pub open spec fn displacement(v: int, dt_ms: int) -> int {
    if v >= 0 {
        (v * dt_ms) / (MS_PER_SECOND as int)
    } else {
        -(((-v) * dt_ms) / (MS_PER_SECOND as int))
    }
}

/// Compute `displacement(v, dt_ms)` in machine integers.
pub fn scaled_displacement(v: i64, dt_ms: i64) -> (r: i64)
    requires
        -SPEED_MAX <= v <= SPEED_MAX,
        0 <= dt_ms <= DT_MAX_MS,
    ensures
        r == displacement(v as int, dt_ms as int),
        -DISPLACEMENT_MAX <= r <= DISPLACEMENT_MAX,
{
    proof {
        assert(v >= 0 ==> 0 <= v * dt_ms <= SPEED_MAX * DT_MAX_MS) by (nonlinear_arith)
            requires
                -SPEED_MAX <= v <= SPEED_MAX,
                0 <= dt_ms <= DT_MAX_MS,
        ;
        assert(v < 0 ==> 0 <= (-v) * dt_ms <= SPEED_MAX * DT_MAX_MS) by (nonlinear_arith)
            requires
                -SPEED_MAX <= v <= SPEED_MAX,
                0 <= dt_ms <= DT_MAX_MS,
        ;
    }
    if v >= 0 {
        (v * dt_ms) / MS_PER_SECOND
    } else {
        -(((-v) * dt_ms) / MS_PER_SECOND)
    }
}

/// Whether the ball's square bounding box, centered at `(bx, by)`, overlaps
/// the paddle rectangle centered at `(px, py)` (strict overlap: touching
/// edges do not count).
pub open spec fn hits_paddle(bx: int, by: int, px: int, py: int) -> bool {
    &&& bx - BALL_SIZE_HALF < px + RACKET_WIDTH_HALF
    &&& bx + BALL_SIZE_HALF > px - RACKET_WIDTH_HALF
    &&& by - BALL_SIZE_HALF < py + RACKET_HEIGHT_HALF
    &&& by + BALL_SIZE_HALF > py - RACKET_HEIGHT_HALF
}

/// Decide `hits_paddle` on concrete positions.
pub fn paddle_overlaps(ball: &Vec2, paddle: &Vec2) -> (r: bool)
    requires
        -2 * DIM_MAX <= ball.x <= 2 * DIM_MAX,
        -2 * DIM_MAX <= ball.y <= 2 * DIM_MAX,
        -2 * DIM_MAX <= paddle.x <= 2 * DIM_MAX,
        -2 * DIM_MAX <= paddle.y <= 2 * DIM_MAX,
    ensures
        r == hits_paddle(ball.x as int, ball.y as int, paddle.x as int, paddle.y as int),
{
    ball.x - BALL_SIZE_HALF < paddle.x + RACKET_WIDTH_HALF
        && ball.x + BALL_SIZE_HALF > paddle.x - RACKET_WIDTH_HALF
        && ball.y - BALL_SIZE_HALF < paddle.y + RACKET_HEIGHT_HALF
        && ball.y + BALL_SIZE_HALF > paddle.y - RACKET_HEIGHT_HALF
}

/// The absolute value of an unbounded integer.
pub open spec fn abs_spec(v: int) -> int {
    if v < 0 {
        -v
    } else {
        v
    }
}

/// Compute the absolute value of a velocity component.
pub fn abs_component(v: i64) -> (r: i64)
    requires
        -SPEED_MAX <= v <= SPEED_MAX,
    ensures
        r == abs_spec(v as int),
{
    if v < 0 {
        -v
    } else {
        v
    }
}

} // verus!
