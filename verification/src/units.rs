//! The fixed-point scale and the constants of the simulation.
//!
//! Every length, position and velocity is an `i64` counted in hundredths of a
//! pixel; a velocity is the distance covered in one tick.

use vstd::prelude::*;

verus! {

/// Units in one pixel.
pub const UNIT: i64 = 100;

/// Width of the canvas: 800 pixels.
pub const CANVAS_WIDTH: i64 = 80_000;

/// Height of the canvas: 600 pixels.
pub const CANVAS_HEIGHT: i64 = 60_000;

/// Height of the ground band at the bottom of the canvas: 60 pixels.
pub const GROUND_BAND: i64 = 6_000;

/// Downward acceleration of the airborne player: 0.8 pixels per tick, each tick.
pub const GRAVITY: i64 = 80;

/// The fastest the player falls: 20 pixels per tick.
pub const MAX_FALL_SPEED: i64 = 2_000;

/// Vertical velocity of the player at take-off: 15 pixels per tick, upward.
pub const JUMP_STRENGTH: i64 = -1_500;

/// Horizontal speed of the walking player: 5 pixels per tick.
pub const MOVE_SPEED: i64 = 500;

/// How far below the underside of a platform the player's feet may be and
/// still be lifted onto it: 10 pixels.
pub const PLATFORM_TOLERANCE: i64 = 1_000;

/// Downward acceleration of an airborne enemy: 0.48 pixels per tick, each tick.
pub const ENEMY_GRAVITY: i64 = 48;

/// Vertical velocity of a jumper at take-off: 10 pixels per tick, upward.
pub const ENEMY_JUMP_STRENGTH: i64 = -1_000;

/// A grounded jumper takes off once it is farther than this from the middle
/// of its patrol: 30 pixels.
pub const JUMP_TRIGGER_DISTANCE: i64 = 3_000;

/// Distance by which an enemy pushes the player away: 20 pixels.
pub const KNOCKBACK: i64 = 2_000;

/// Largest magnitude of a coordinate, length or speed that the arithmetic of
/// this crate accepts: ten million pixels.
pub const COORD_LIMIT: i64 = 1_000_000_000;

/// Whether `v` lies within `COORD_LIMIT` of zero.
pub open spec fn in_range(v: int) -> bool {
    -COORD_LIMIT <= v <= COORD_LIMIT
}

/// The y coordinate of the top of the ground band on a canvas of the given height.
pub open spec fn ground_level(canvas_height: int) -> int {
    canvas_height - GROUND_BAND
}

} // verus!
