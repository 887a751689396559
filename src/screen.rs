//! Fixed configuration and the mapping between screen pixels and grid cells.

use vstd::prelude::*;

verus! {

/// Number of columns of the grid.
pub const GRID_WIDTH: usize = 32;

/// Number of rows of the grid.
pub const GRID_HEIGHT: usize = 24;

/// Width of one cell on screen, in pixels.
pub const CELL_WIDTH: usize = 25;

/// Height of one cell on screen, in pixels.
pub const CELL_HEIGHT: usize = 25;

/// Width of the window, in pixels.
pub const SCREEN_WIDTH: usize = GRID_WIDTH * CELL_WIDTH;

/// Height of the window, in pixels.
pub const SCREEN_HEIGHT: usize = GRID_HEIGHT * CELL_HEIGHT;

/// Generations per second while the simulation runs.
pub const TICKS_PER_SECOND: u64 = 6;

/// Least time between two generations, in milliseconds.
pub const MILLIS_PER_TICK: u64 = 1000 / TICKS_PER_SECOND;

/// Grid coordinate of the pixel `(px, py)`, truncating toward zero.
pub open spec fn screen_to_grid(px: int, py: int) -> (int, int) {
    (px / CELL_WIDTH as int, py / CELL_HEIGHT as int)
}

/// Maps a non-negative screen position to the grid cell under it.
pub fn pos_from_screen_coords(x: i32, y: i32) -> (r: (usize, usize))
    requires
        x >= 0,
        y >= 0,
    ensures
        (r.0 as int, r.1 as int) == screen_to_grid(x as int, y as int),
{
    ((x as usize) / CELL_WIDTH, (y as usize) / CELL_HEIGHT)
}

/// Maps a screen position to the grid cell under it; a negative coordinate
/// lies off the grid and is rejected.
pub fn grid_pos(x: i32, y: i32) -> (r: Option<(usize, usize)>)
    ensures
        r is None <==> (x < 0 || y < 0),
        r matches Some(p) ==> (p.0 as int, p.1 as int) == screen_to_grid(x as int, y as int),
{
    if x < 0 || y < 0 {
        None
    } else {
        Some(pos_from_screen_coords(x, y))
    }
}

/// Screen rectangle `(left, top, width, height)` covered by cell `(x, y)`.
pub fn pos_to_rect(x: usize, y: usize) -> (r: (i32, i32, i32, i32))
    requires
        x * CELL_WIDTH <= i32::MAX,
        y * CELL_HEIGHT <= i32::MAX,
    ensures
        r.0 == x * CELL_WIDTH,
        r.1 == y * CELL_HEIGHT,
        r.2 == CELL_WIDTH,
        r.3 == CELL_HEIGHT,
{
    (
        (x * CELL_WIDTH) as i32,
        (y * CELL_HEIGHT) as i32,
        CELL_WIDTH as i32,
        CELL_HEIGHT as i32,
    )
}

} // verus!
