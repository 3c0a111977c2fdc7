//! The ball: a cell position, a velocity and a sub-cell offset.
//!
//! The ball sits in one cell and carries an offset in pixels from it. Each
//! tick the velocity is added to the offset; an offset that has grown past
//! one cell is traded for a step of one cell. The ball therefore never
//! moves by more than one cell per tick along an axis.

use crate::grid::{within, GridPosition, Vector, CELL, CELL_PIXELS, LIMIT};
use vstd::prelude::*;

verus! {

/// Velocity of a ball that has just been served: 12 pixels per tick to the
/// right, in tenths of a pixel.
pub const SERVE_SPEED_X: i64 = 120;

/// Velocity of a ball that has just been served: 18 pixels per tick
/// upwards, in tenths of a pixel.
pub const SERVE_SPEED_Y: i64 = -180;

/// The whole number nearest to `tenths / 10`; a value halfway between two
/// whole numbers goes to the one farther from zero.
pub open spec fn round_tenths(tenths: int) -> int {
    if tenths >= 0 {
        (tenths + 5) / 10
    } else {
        -((5 - tenths) / 10)
    }
}

/// Computes [`round_tenths`].
pub fn rounded_tenths(tenths: i64) -> (r: i64)
    requires
        5 - i64::MAX <= tenths <= i64::MAX - 5,
    ensures
        r == round_tenths(tenths as int),
{
    if tenths >= 0 {
        (tenths + 5) / 10
    } else {
        -((5 - tenths) / 10)
    }
}

/// The offset in pixels after one tick at `speed` tenths of a pixel per
/// tick, before any of it is traded for a step.
pub open spec fn moved_offset(offset: int, speed: int) -> int {
    round_tenths(10 * offset + speed)
}

/// The number of cells that an offset of `moved` pixels is traded for: one
/// in its direction when it exceeds a cell, none otherwise.
pub open spec fn carried_cells(moved: int) -> int {
    if moved > CELL_PIXELS {
        1
    } else if moved < -CELL_PIXELS {
        -1
    } else {
        0
    }
}

/// An offset of no more than one cell.
pub open spec fn within_cell(offset: int) -> bool {
    -CELL_PIXELS <= offset <= CELL_PIXELS
}

/// A velocity of no more than one cell per tick.
pub open spec fn cell_per_tick(speed: int) -> bool {
    -10 * CELL_PIXELS <= speed <= 10 * CELL_PIXELS
}

/// Coordinate and offset along one axis after one tick.
pub open spec fn stepped_axis(pos: int, offset: int, speed: int) -> (int, int) {
    let moved = moved_offset(offset, speed);
    (pos + CELL * carried_cells(moved), moved - CELL_PIXELS * carried_cells(moved))
}

/// Moves one axis of the ball by one tick and returns coordinate and
/// offset. An offset within one cell stays within one cell at no more
/// than one cell per tick.
pub fn step_axis(pos: i64, offset: i64, speed: i64) -> (r: (i64, i64))
    requires
        within(pos, LIMIT),
        within(offset, LIMIT),
        within(speed, LIMIT),
    ensures
        r.0 == stepped_axis(pos as int, offset as int, speed as int).0,
        r.1 == stepped_axis(pos as int, offset as int, speed as int).1,
        within_cell(offset as int) && cell_per_tick(speed as int) ==> within_cell(r.1 as int),
{
    let moved: i64 = rounded_tenths(10 * offset + speed);
    if moved > CELL_PIXELS {
        (pos + CELL, moved - CELL_PIXELS)
    } else if moved < -CELL_PIXELS {
        (pos - CELL, moved + CELL_PIXELS)
    } else {
        (pos, moved)
    }
}

/// The ball.
#[derive(Clone, Copy, Debug, PartialEq, Eq, Structural)]
pub struct Ball {
    /// The cell the ball sits in, in tenths of a cell.
    pub pos: GridPosition,
    /// Tenths of a pixel per tick.
    pub speed: Vector,
    /// Pixels from the cell position, for drawing between cells.
    pub offsets: Vector,
}

impl Ball {
    /// Position, velocity and offset all lie within `limit`.
    pub open spec fn bounded_by(self, limit: i64) -> bool {
        self.pos.bounded_by(limit) && self.speed.bounded_by(limit) && self.offsets.bounded_by(limit)
    }

    /// Position, velocity and offset all lie within [`LIMIT`].
    pub open spec fn bounded(self) -> bool {
        self.bounded_by(LIMIT)
    }

    /// Computes [`Ball::bounded_by`].
    pub fn is_bounded_by(&self, limit: i64) -> (r: bool)
        ensures
            r == self.bounded_by(limit),
    {
        self.pos.is_bounded_by(limit) && self.speed.is_bounded_by(limit)
            && self.offsets.is_bounded_by(limit)
    }

    /// A ball served from `pos`.
    pub open spec fn served(pos: GridPosition) -> Ball {
        Ball {
            pos,
            speed: Vector { x: SERVE_SPEED_X, y: SERVE_SPEED_Y },
            offsets: Vector { x: 0, y: 0 },
        }
    }

    /// The ball one tick later.
    pub open spec fn moved(self) -> Ball {
        let x = stepped_axis(self.pos.x as int, self.offsets.x as int, self.speed.x as int);
        let y = stepped_axis(self.pos.y as int, self.offsets.y as int, self.speed.y as int);
        Ball {
            pos: GridPosition { x: x.0 as i64, y: y.0 as i64 },
            speed: self.speed,
            offsets: Vector { x: x.1 as i64, y: y.1 as i64 },
        }
    }

    /// Both offsets lie within one cell.
    pub open spec fn offsets_within_cell(self) -> bool {
        within_cell(self.offsets.x as int) && within_cell(self.offsets.y as int)
    }

    /// The ball covers at most one cell per tick along each axis.
    pub open spec fn speed_within_cell(self) -> bool {
        cell_per_tick(self.speed.x as int) && cell_per_tick(self.speed.y as int)
    }

    /// Serves a ball from `pos`: in the middle of its cell, moving up and
    /// to the right.
    pub fn new(pos: GridPosition) -> (ball: Ball)
        ensures
            ball == Ball::served(pos),
    {
        Ball {
            pos,
            speed: Vector { x: SERVE_SPEED_X, y: SERVE_SPEED_Y },
            offsets: Vector { x: 0, y: 0 },
        }
    }

    /// Moves the ball by one tick. The velocity is unchanged. Along an
    /// axis on which the ball is no faster than one cell per tick, an
    /// offset within one cell stays within one cell.
    pub fn update(&mut self)
        requires
            old(self).bounded(),
        ensures
            *final(self) == old(self).moved(),
            within_cell(old(self).offsets.x as int) && cell_per_tick(old(self).speed.x as int)
                ==> within_cell(final(self).offsets.x as int),
            within_cell(old(self).offsets.y as int) && cell_per_tick(old(self).speed.y as int)
                ==> within_cell(final(self).offsets.y as int),
    {
        let x: (i64, i64) = step_axis(self.pos.x, self.offsets.x, self.speed.x);
        let y: (i64, i64) = step_axis(self.pos.y, self.offsets.y, self.speed.y);
        self.pos = GridPosition { x: x.0, y: y.0 };
        self.offsets = Vector { x: x.1, y: y.1 };
    }
}

} // verus!
