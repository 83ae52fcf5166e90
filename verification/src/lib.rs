//! Core logic of a "dodge the obstacles" road-racing arcade game.
//!
//! The game engine that draws sprites, mixes audio, polls the keyboard and
//! detects collisions lives outside this crate.  Once per rendered frame it
//! hands the core a snapshot of the world — the elapsed time, the key states,
//! the collision events since the last frame and the positions of all
//! entities — and the core computes the new positions, the new health
//! counter and the side effects the driver must perform (play a sound,
//! rewrite the health label, show the game-over screen).
//!
//! All quantities are fixed-point integers so that every update rule is
//! exact:
//!
//! * positions are in *milliunits* (thousandths of a world unit),
//! * elapsed time is in milliseconds,
//! * rotations are in milliradians.
//!
//! A speed of `250` world units per second is therefore `250` milliunits per
//! millisecond, and a displacement is just `speed * delta_ms`.

use vstd::prelude::*;

pub mod collisions;
pub mod entity;
pub mod health;
pub mod input;
pub mod kinematics;
pub mod rng;
pub mod setup;
pub mod state;
pub mod text;
pub mod update;

verus! {

/// Vertical speed of the player's car, in milliunits per millisecond.
pub const PLAYER_SPEED: i64 = 250;

/// Leftward speed of road lines and obstacles, in milliunits per millisecond.
pub const ROAD_SPEED: i64 = 400;

/// Cosmetic tilt of the car per unit of direction, in milliradians.
pub const PLAYER_TILT: i64 = 150;

/// The player loses instantly when `|y|` exceeds this bound (milliunits).
pub const PLAYER_Y_LIMIT: i64 = 360_000;

/// A road line that drifts below this `x` wraps to the right (milliunits).
pub const ROAD_LINE_WRAP_X: i64 = -675_000;

/// Distance a wrapping road line jumps to the right (milliunits).
pub const ROAD_LINE_WRAP_SHIFT: i64 = 1_500_000;

/// An obstacle that drifts below this `x` respawns on the right (milliunits).
pub const OBSTACLE_RESPAWN_X: i64 = -800_000;

/// Lower bound (inclusive) of a respawned obstacle's `x` (milliunits).
pub const OBSTACLE_SPAWN_MIN_X: i64 = 800_000;

/// Upper bound (exclusive) of a respawned obstacle's `x` (milliunits).
pub const OBSTACLE_SPAWN_MAX_X: i64 = 1_600_000;

/// Lower bound (inclusive) of a respawned obstacle's `y` (milliunits).
pub const OBSTACLE_SPAWN_MIN_Y: i64 = -300_000;

/// Upper bound (exclusive) of a respawned obstacle's `y` (milliunits).
pub const OBSTACLE_SPAWN_MAX_Y: i64 = 300_000;

/// Health the player starts with.
pub const INITIAL_HEALTH: u8 = 5;

/// Number of road lines the driver creates at startup.
pub const ROAD_LINE_COUNT: u8 = 10;

/// `x` of the first road line at startup (milliunits).
pub const ROAD_LINE_START_X: i64 = -600_000;

/// Horizontal spacing between consecutive road lines (milliunits).
pub const ROAD_LINE_SPACING: i64 = 150_000;

/// `x` at which the player's car is created (milliunits).
pub const PLAYER_START_X: i64 = -500_000;

/// Coordinates handed to the per-frame update must stay within this bound so
/// that one frame's displacement can never overflow an `i64`.
pub const COORD_LIMIT: i64 = 4_000_000_000_000_000_000;

} // verus!
