//! Gameplay logic of a top-down avoidance game: the player's motion, the
//! spawning of mobs along a path, the heads-up display and the game's phases.
//!
//! Lengths are kept in thousandths of a screen unit, time in microseconds and
//! angles in thousandths of a degree, so that every rule here is exact.

mod random;

pub mod motion;
pub mod spawn;
pub mod hud;
pub mod game;
