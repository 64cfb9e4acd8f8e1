//! Core simulation of a small grid-based snake arcade game.
//!
//! The library holds the verified game logic: toroidal grid geometry, the
//! player with its trailing segments, pooled food and hazard slots, and the
//! per-frame `update` transition of the game state machine. Window, input
//! and audio glue live outside the library and only read the state exposed
//! here.

use vstd::prelude::*;

pub mod game;
pub mod geometry;
pub mod player;
mod rng;
pub mod types;

verus! {

/// Width of the window in pixels.
pub const SCREEN_WIDTH: i32 = 420;

/// Height of the window in pixels.
pub const SCREEN_HEIGHT: i32 = 420;

/// Side of one grid cell in pixels.
pub const CELL_SIZE: i32 = 20;

/// Height of the information bar at the top of the window, in pixels.
pub const INFO_HEIGHT: i32 = 20;

/// Number of grid cells along the x axis: the screen width in cells.
pub const CELLS_X_LEN: i32 = 21;

/// Number of grid cells along the y axis: the screen height below the
/// information bar, in cells.
pub const CELLS_Y_LEN: i32 = 20;

/// Upper bound for the player's energy.
pub const ENERGY_MAX: i32 = 100;

/// Number of grid cells, and so of pooled food and hazard slots.
pub const N_CELLS: usize = 420;

} // verus!
