use vstd::prelude::*;

verus! {

/// Micro-units in one world unit.
pub const SCALE: i64 = 1_000_000;

/// Viewport width, in micro-units.
pub const WIDTH: i64 = 16 * SCALE;

/// Viewport height, in micro-units.
pub const HEIGHT: i64 = 9 * SCALE;

pub const HALF_WIDTH: i64 = 8 * SCALE;

pub const HALF_HEIGHT: i64 = 4_500_000;

/// Right edge of the viewport.
pub const MAX_X: i64 = HALF_WIDTH;

/// Left edge of the viewport.
pub const MIN_X: i64 = -MAX_X;

/// Bottom edge of the viewport.
pub const MIN_Y: i64 = -HALF_HEIGHT;

/// Microseconds in one second: the period of the spawn and score clock.
pub const PERIOD_US: u64 = 1_000_000;

/// Scroll speed of the background, in units per second.
pub const BACKGROUND_SPEED: u32 = 2;

/// Height at which obstacles appear, in micro-units.
pub const SPAWN_HEIGHT: i64 = 5 * SCALE;

/// Horizontal velocity given to every obstacle, in units per second.
pub const ENEMY_VELOCITY_X: i64 = -1;

/// Radius and segment length of an obstacle's capsule collider, in micro-units.
pub const ENEMY_COLLIDER_SIZE: i64 = 50_000;

/// Points added to the score on each clock pulse.
pub const SCORE_STEP: u32 = 10;

} // verus!
