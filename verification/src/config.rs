//! Grid dimensions and the other fixed parameters of the game.

use vstd::prelude::*;

verus! {

/// Side of one grid cell, in pixels.
pub const POINT_SIZE: u32 = 15;

/// Number of cells across the grid.
pub const GRID_WIDTH: u32 = 50;

/// Number of cells down the grid.
pub const GRID_HEIGHT: u32 = 50;

/// Width of the window, in pixels.
#[verifier::nonlinear]
pub const WINDOW_WIDTH: u32 = GRID_WIDTH * POINT_SIZE;

/// Height of the window, in pixels.
#[verifier::nonlinear]
pub const WINDOW_HEIGHT: u32 = GRID_HEIGHT * POINT_SIZE;

/// Distance of the wall from the edge of the grid, in cells.
pub const BORDER_SPACING: u32 = 4;

/// Column of the left wall.
pub const BORDER_START_X: u32 = BORDER_SPACING;

/// Column of the right wall.
pub const BORDER_END_X: u32 = GRID_WIDTH - BORDER_SPACING;

/// Row of the top wall.
pub const BORDER_START_Y: u32 = BORDER_SPACING;

/// Row of the bottom wall.
pub const BORDER_END_Y: u32 = GRID_HEIGHT - BORDER_SPACING;

/// Leftmost column strictly inside the wall.
pub const INTERIOR_START_X: u32 = BORDER_START_X + 1;

/// Topmost row strictly inside the wall.
pub const INTERIOR_START_Y: u32 = BORDER_START_Y + 1;

/// Number of columns strictly inside the wall.
pub const INTERIOR_WIDTH: u32 = BORDER_END_X - BORDER_START_X - 1;

/// Number of rows strictly inside the wall.
pub const INTERIOR_HEIGHT: u32 = BORDER_END_Y - BORDER_START_Y - 1;

/// Number of cells strictly inside the wall.
#[verifier::nonlinear]
pub const INTERIOR_AREA: u32 = INTERIOR_WIDTH * INTERIOR_HEIGHT;

/// How often a blind draw for a free cell is tried before the free cells are
/// counted and one of them is drawn directly.
pub const RESPAWN_ATTEMPTS: u32 = 32;

/// Length of one tick in nanoseconds: the game runs at ten ticks a second.
pub const TICK_NANOS: u64 = 1_000_000_000u64 / 10;

} // verus!
