//! Simulation core of a side-scrolling paddle game: a scripted level
//! director, enemy and projectile models, and the per-tick combat pass.
//!
//! Quantities are fixed-point integers: lengths, health and damage are in
//! millionths of a world unit (or of a hit point), time is in milliseconds,
//! and a velocity is in millionths of a world unit per millisecond.
use vstd::prelude::*;

pub mod console;
pub mod enemy;
pub mod fade;
pub mod level;
pub mod paddle;
pub mod game_loop;
pub mod projectile;
pub mod settings;
pub mod stages;
pub mod state;

verus! {

/// One world unit, one hit point or one damage point in fixed point.
pub const UNIT: i64 = 1_000_000;

} // verus!
