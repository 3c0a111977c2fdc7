//! The playfield and coordinates on it.

use crate::rng::{draw_range, Rng};
use vstd::prelude::*;

verus! {

/// Position units in one grid cell: positions count tenths of a cell.
pub const CELL: i64 = 10;

/// Width of the playfield, 30 cells.
pub const GRID_WIDTH: i64 = 300;

/// Height of the playfield, 20 cells.
pub const GRID_HEIGHT: i64 = 200;

/// Edge of a grid cell on the screen, in pixels.
pub const CELL_PIXELS: i64 = 32;

/// Largest magnitude of a coordinate, a velocity, an offset or a score that
/// a single step of the simulation accepts. Eleven times the limit still
/// fits in an `i64`, which is what a step needs.
pub const LIMIT: i64 = 0x0800_0000_0000_0000;

/// Largest magnitude that a whole tick accepts: half of [`LIMIT`], since
/// one step of a tick may let a value grow before the next step reads it.
pub const TICK_LIMIT: i64 = 0x0400_0000_0000_0000;

/// `-limit <= v <= limit`.
pub open spec fn within(v: i64, limit: i64) -> bool {
    -limit <= v <= limit
}

/// Computes [`within`]. Nothing lies within a negative limit.
pub fn is_within(v: i64, limit: i64) -> (r: bool)
    ensures
        r == within(v, limit),
{
    limit >= 0 && -limit <= v && v <= limit
}

/// A point of the playfield, in tenths of a cell. `x` grows to the right
/// and `y` downwards; `(0, 0)` is the top left corner.
#[derive(Clone, Copy, Debug, PartialEq, Eq, Structural)]
pub struct GridPosition {
    pub x: i64,
    pub y: i64,
}

/// A pair of signed amounts along the two axes: the velocity of the ball
/// or its sub-cell offset.
#[derive(Clone, Copy, Debug, PartialEq, Eq, Structural)]
pub struct Vector {
    pub x: i64,
    pub y: i64,
}

impl GridPosition {
    /// Both coordinates lie within `limit`.
    pub open spec fn bounded_by(self, limit: i64) -> bool {
        within(self.x, limit) && within(self.y, limit)
    }

    /// Both coordinates lie within [`LIMIT`].
    pub open spec fn bounded(self) -> bool {
        self.bounded_by(LIMIT)
    }

    /// Computes [`GridPosition::bounded_by`].
    pub fn is_bounded_by(&self, limit: i64) -> (r: bool)
        ensures
            r == self.bounded_by(limit),
    {
        is_within(self.x, limit) && is_within(self.y, limit)
    }

    /// The corner of the cell in column `column` and row `row`.
    pub open spec fn of_cell(column: u32, row: u32) -> GridPosition {
        GridPosition { x: (CELL * column) as i64, y: (CELL * row) as i64 }
    }

    /// The corner of the cell that two draws from `rng` pick: the column
    /// from `min_x..max_x` first, then the row from `min_y..max_y`.
    pub open spec fn random_cell(rng: Rng, min_x: u32, max_x: u32, min_y: u32, max_y: u32)
        -> GridPosition {
        GridPosition::of_cell(
            rng.peek_range(min_x, max_x),
            rng.after_range(min_x, max_x).peek_range(min_y, max_y),
        )
    }

    /// The generator after the two draws of [`GridPosition::random_cell`].
    pub open spec fn random_rng(rng: Rng, min_x: u32, max_x: u32, min_y: u32, max_y: u32) -> Rng {
        rng.after_range(min_x, max_x).after_range(min_y, max_y)
    }

    /// The corner of the cell in column `column` and row `row`, both counted
    /// in cells.
    pub fn at_cell(column: u32, row: u32) -> (pos: GridPosition)
        ensures
            pos == GridPosition::of_cell(column, row),
            pos.x == CELL * column,
            pos.y == CELL * row,
    {
        GridPosition { x: CELL * (column as i64), y: CELL * (row as i64) }
    }

    /// Picks the corner of a cell whose column lies in `min_x..max_x` and
    /// whose row lies in `min_y..max_y`, both counted in cells. The
    /// generator must be valid, and stays so.
    pub fn random(rng: &mut Rng, min_x: u32, max_x: u32, min_y: u32, max_y: u32) -> (pos:
        GridPosition)
        requires
            min_x < max_x,
            min_y < max_y,
            old(rng).valid(),
        ensures
            pos == GridPosition::random_cell(*old(rng), min_x, max_x, min_y, max_y),
            *final(rng) == GridPosition::random_rng(*old(rng), min_x, max_x, min_y, max_y),
            final(rng).valid(),
            CELL * min_x <= pos.x < CELL * max_x,
            CELL * min_y <= pos.y < CELL * max_y,
            pos.x % CELL == 0,
            pos.y % CELL == 0,
    {
        let column: u32 = draw_range(rng, min_x, max_x);
        let row: u32 = draw_range(rng, min_y, max_y);
        GridPosition::at_cell(column, row)
    }
}

impl Vector {
    /// Both components lie within `limit`.
    pub open spec fn bounded_by(self, limit: i64) -> bool {
        within(self.x, limit) && within(self.y, limit)
    }

    /// Both components lie within [`LIMIT`].
    pub open spec fn bounded(self) -> bool {
        self.bounded_by(LIMIT)
    }

    /// Computes [`Vector::bounded_by`].
    pub fn is_bounded_by(&self, limit: i64) -> (r: bool)
        ensures
            r == self.bounded_by(limit),
    {
        is_within(self.x, limit) && is_within(self.y, limit)
    }
}

} // verus!
