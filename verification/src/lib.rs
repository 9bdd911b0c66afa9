//! A verified core for a minimal fly-camera scene: a ground grid of
//! lines, a keyboard-driven camera clamped to the grid's extents, a
//! proximity highlight for a landmark, and the numeric half of a
//! position readout.
//!
//! The host engine (rendering, windowing, input hardware) stays
//! outside: it hands the library plain values — key signals, a frame
//! time delta, direction vectors — and receives plain values back.

pub mod camera;
pub mod grid;
pub mod landmark;
pub mod report;
pub mod units;
