//! Simulation core of a two-paddle ball game.
//!
//! All lengths are whole micro-units (a millionth of a field unit), all
//! speeds whole field units per second and all durations whole
//! microseconds, so that a speed times a duration is a length with no
//! rounding anywhere.

pub mod collision;
pub mod entity;
pub mod geometry;
pub mod movement;
pub mod simulation;
