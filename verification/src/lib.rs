//! A verified core for a two-player Pong game.
//!
//! The library holds the whole per-frame simulation: paddle motion under the
//! held keys, ball integration, scoring with a randomized relaunch, wall
//! bounces and paddle collisions.  Every quantity is a fixed-point integer
//! (thousandths of a screen unit), so the geometry is exact and every
//! transition is stated and proved against the specification functions in
//! [`step`].  Rendering, windowing and input sampling are left to a thin
//! shell that drives [`state::GameState::advance`] once per frame.

pub mod config;
pub mod geometry;
pub mod laws;
pub mod relaunch;
pub mod state;
pub mod step;
