use vstd::prelude::*;

verus! {

/// Fixed-point scale: every coordinate, size and speed in this crate is held
/// in thousandths of a screen unit, so that the game's geometry (including
/// half-sizes of odd widths) is exact in integers.
pub const UNIT: i64 = 1000;

/// Milliseconds per second; elapsed time is passed in milliseconds while
/// speeds are stated per second.
pub const MS_PER_SECOND: i64 = 1000;

/// Paddle height, in thousandths of a unit.
pub const RACKET_HEIGHT: i64 = 100 * UNIT;

/// Paddle width, in thousandths of a unit.
pub const RACKET_WIDTH: i64 = 25 * UNIT;

pub const RACKET_HEIGHT_HALF: i64 = 50 * UNIT;

pub const RACKET_WIDTH_HALF: i64 = 12 * UNIT + 500;

/// Horizontal inset of each paddle from its edge of the arena.
pub const PADDING: i64 = 40 * UNIT;

/// Side of the square ball, in thousandths of a unit.
pub const BALL_SIZE: i64 = 30 * UNIT;

pub const BALL_SIZE_HALF: i64 = 15 * UNIT;

/// Paddle speed, in thousandths of a unit per second.
pub const PLAYER_SPEED: i64 = 300 * UNIT;

/// Magnitude of each component of a freshly launched ball velocity,
/// in thousandths of a unit per second.
pub const BALL_SPEED: i64 = 300 * UNIT;

/// Largest arena dimension and largest coordinate magnitude the simulation
/// accepts; generous enough for any screen, small enough that all the
/// step's arithmetic stays inside `i64`.
pub const DIM_MAX: i64 = 1_000_000_000_000;

/// Largest velocity-component magnitude the simulation accepts.
pub const SPEED_MAX: i64 = 1_000_000_000;

/// Largest elapsed time per frame the simulation accepts, in milliseconds.
pub const DT_MAX_MS: i64 = 1_000_000_000;

/// Largest distance one frame can cover:
/// `SPEED_MAX * DT_MAX_MS / MS_PER_SECOND`.
pub const DISPLACEMENT_MAX: i64 = 1_000_000_000_000_000;

} // verus!
