use vstd::prelude::*;

verus! {

/// Width of the playing field, in cells.
pub const SCREEN_WIDTH: i32 = 120;

/// Height of the playing field, in cells.
pub const SCREEN_HEIGHT: i32 = 80;

/// Width of the player's sprite, in cells.
pub const PLAYER_WIDTH: i32 = 14;

/// Height of the player's sprite, in cells.
pub const PLAYER_HEIGHT: i32 = 14;

/// Time between two gravity steps, in microseconds.
pub const FRAME_DURATION_US: u64 = 75000;

/// Velocity added by one gravity step, in tenths of a cell.
pub const GRAVITY_STEP: i32 = 2;

/// Largest falling velocity, in tenths of a cell.
pub const TERMINAL_VELOCITY: i32 = 20;

/// Velocity set by a flap, in tenths of a cell (upwards is negative).
pub const FLAP_VELOCITY: i32 = -25;

/// Distance an obstacle travels left on each tick, in half cells.
pub const OBSTACLE_SPEED_HALVES: i64 = 1;

/// Smallest gap an obstacle can have.
pub const MIN_GAP_SIZE: i32 = 20;

/// Gap of an obstacle spawned at score zero.
pub const BASE_GAP_SIZE: i32 = 40;

/// Lowest gap centre a new obstacle can get.
pub const GAP_Y_LOW: i32 = 30;

/// One past the highest gap centre a new obstacle can get.
pub const GAP_Y_HIGH: i32 = 60;

/// Smallest obstacle spacing the menu allows.
pub const MIN_OBSTACLE_DISTANCE: i32 = 40;

/// Largest obstacle spacing the menu allows.
pub const MAX_OBSTACLE_DISTANCE: i32 = 60;

/// Step of the obstacle spacing on one Left or Right press.
pub const OBSTACLE_DISTANCE_STEP: i32 = 5;

/// Obstacle spacing at start-up.
pub const DEFAULT_OBSTACLE_DISTANCE: i32 = 50;

/// One background cell, in units of the background offset.
pub const OFFSET_UNITS_PER_CELL: u64 = 1000000;

/// The background offset wraps after one screen width, in offset units.
pub const OFFSET_WRAP: u64 = 120000000;

/// Column at which the player starts.
pub const PLAYER_START_X: i32 = 2;

/// Row at which the player starts.
pub const PLAYER_START_Y: i32 = 25;

} // verus!
