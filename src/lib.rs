//! A side-scrolling reflex game: a sprite falls under gravity, flaps upward on
//! demand and must pass through the gaps of a procession of walls.
//!
//! The simulation is exact integer arithmetic: vertical positions, speeds and
//! the animation phase are counted in tenths of a cell, elapsed time in
//! microseconds.
use vstd::prelude::*;

pub mod obstacle;
pub mod player;
pub mod rng;
pub mod state;

verus! {

/// Width of the visible playfield, in cells.
pub const SCREEN_WIDTH: i32 = 80;

/// Height of the visible playfield, in cells.
pub const SCREEN_HEIGHT: i32 = 50;

/// Number of sub-cell units in one cell (positions and speeds are in tenths).
pub const SUBCELLS: i32 = 10;

/// Simulated time of one physics tick, in microseconds.
pub const FRAME_DURATION_US: u64 = 50_000;

/// Height of the player's sprite, in cells.
pub const PLAYER_SPRITE_HEIGHT: i32 = 8;

/// Width of the player's sprite, in cells.
pub const PLAYER_SPRITE_WIDTH: i32 = 8;

/// Height of one wall block sprite, in cells.
pub const WALL_SPRITE_HEIGHT: i32 = 2;

/// Width of one wall block sprite, in cells.
pub const WALL_SPRITE_WIDTH: i32 = 2;

} // verus!
