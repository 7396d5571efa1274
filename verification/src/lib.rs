//! Verified simulation core for a two-paddle ball game.
//!
//! The crate covers the per-frame logic of the game: integrating the ball's
//! motion, steering the two paddles, resolving ball/paddle collisions,
//! handling scoring and round resets, and driving the Menu / InGame /
//! GameOver phase machine.  Rendering, input polling and windowing are left
//! to a thin driver around the library.
//!
//! All positions are kept in milli-units (1000 milli-units to one playfield
//! unit) and velocities in units per second, so that advancing a position by
//! `velocity * dt` over `dt` milliseconds is exact integer arithmetic with no
//! rounding anywhere.

pub mod collision;
pub mod control;
pub mod geometry;
pub mod phase;
pub mod physics;
pub mod scoring;
pub mod state;
