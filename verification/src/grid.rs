use vstd::prelude::*;

verus! {

/// Width of the canvas grid, in cells.
pub const WIDTH: isize = 212;

/// Smallest x coordinate a position may hold.
pub const MIN_X: isize = -106;

/// Largest x coordinate a position may hold.
pub const MAX_X: isize = 105;

/// Height of the canvas grid, in cells.
pub const HEIGHT: isize = 50;

/// Smallest y coordinate a position may hold.
pub const MIN_Y: isize = -25;

/// Largest y coordinate a position may hold.
pub const MAX_Y: isize = 24;

/// Half the grid width; added to an x coordinate to obtain its column.
pub const HALF_WIDTH: isize = 106;

/// Half the grid height; added to a y coordinate to obtain its row.
pub const HALF_HEIGHT: isize = 25;

/// Largest health value an entity may hold.
pub const MAX_HEALTH: usize = 10;

/// Mathematical clamp of `v` into `[lo, hi]`.
pub open spec fn clamp_spec(v: int, lo: int, hi: int) -> int {
    if v < lo {
        lo
    } else if v > hi {
        hi
    } else {
        v
    }
}

/// Clamp a coordinate into `[lo, hi]`.
pub fn clamp_isize(v: isize, lo: isize, hi: isize) -> (r: isize)
    requires
        lo <= hi,
    ensures
        r as int == clamp_spec(v as int, lo as int, hi as int),
{
    if v < lo {
        lo
    } else if v > hi {
        hi
    } else {
        v
    }
}

/// Column of the canvas cell that an x coordinate lands in, after clamping.
pub open spec fn grid_col_spec(px: isize) -> int {
    clamp_spec(px as int, MIN_X as int, MAX_X as int) + HALF_WIDTH as int
}

/// Row of the canvas cell that a y coordinate lands in, after clamping.
pub open spec fn grid_row_spec(py: isize) -> int {
    clamp_spec(py as int, MIN_Y as int, MAX_Y as int) + HALF_HEIGHT as int
}

/// Translate an x coordinate into a canvas column.
pub fn grid_col(px: isize) -> (c: usize)
    ensures
        c as int == grid_col_spec(px),
        c < WIDTH as usize,
{
    let cx = clamp_isize(px, MIN_X, MAX_X);
    (cx + HALF_WIDTH) as usize
}

/// Translate a y coordinate into a canvas row.
pub fn grid_row(py: isize) -> (r: usize)
    ensures
        r as int == grid_row_spec(py),
        r < HEIGHT as usize,
{
    let cy = clamp_isize(py, MIN_Y, MAX_Y);
    (cy + HALF_HEIGHT) as usize
}

} // verus!
