//! The paddle that the player steers along the bottom of the field.

use crate::grid::GridPosition;
use vstd::prelude::*;

verus! {

/// Distance that the paddle covers in one tick: 1.2 cells.
pub const PALETTE_STEP: i64 = 12;

/// The paddle moves left only from a centre at or right of this line,
/// three cells from the left edge.
pub const PALETTE_LEFT_STOP: i64 = 30;

/// The paddle moves right only from a centre left of this line, three
/// cells from the right edge.
pub const PALETTE_RIGHT_STOP: i64 = 270;

/// Leftmost centre that the paddle can reach.
pub const PALETTE_MIN_X: i64 = 18;

/// Rightmost centre that the paddle can reach.
pub const PALETTE_MAX_X: i64 = 281;

/// Where the player steers.
#[derive(Clone, Copy, Debug, PartialEq, Eq, Structural)]
pub enum Direction {
    Left,
    Right,
    Idle,
}

impl Direction {
    /// The direction that the two arrow keys ask for: a key steers only
    /// while the other one is up.
    pub open spec fn of_keys(left: bool, right: bool) -> Direction {
        if left && !right {
            Direction::Left
        } else if right && !left {
            Direction::Right
        } else {
            Direction::Idle
        }
    }

    /// Reads the direction off the two arrow keys.
    pub fn from_keys(left: bool, right: bool) -> (dir: Direction)
        ensures
            dir == Direction::of_keys(left, right),
    {
        if left && !right {
            Direction::Left
        } else if right && !left {
            Direction::Right
        } else {
            Direction::Idle
        }
    }
}

/// The paddle: the position of its centre and the direction steered.
#[derive(Clone, Copy, Debug, PartialEq, Eq, Structural)]
pub struct Palette {
    pub pos: GridPosition,
    pub dir: Direction,
}

impl Palette {
    /// The centre's `x` one tick after it was `x`, steering `dir`.
    pub open spec fn moved_x(x: int, dir: Direction) -> int {
        match dir {
            Direction::Left => if x >= PALETTE_LEFT_STOP {
                x - PALETTE_STEP
            } else {
                x
            },
            Direction::Right => if x < PALETTE_RIGHT_STOP {
                x + PALETTE_STEP
            } else {
                x
            },
            Direction::Idle => x,
        }
    }

    /// The paddle one tick later.
    pub open spec fn moved(self) -> Palette {
        Palette {
            pos: GridPosition { x: Palette::moved_x(self.pos.x as int, self.dir) as i64, y: self.pos.y },
            dir: self.dir,
        }
    }

    /// The centre lies in the band that the paddle cannot leave.
    pub open spec fn in_band(self) -> bool {
        PALETTE_MIN_X <= self.pos.x <= PALETTE_MAX_X
    }

    /// A paddle at rest with its centre at `pos`.
    pub fn new(pos: GridPosition) -> (palette: Palette)
        ensures
            palette == (Palette { pos, dir: Direction::Idle }),
    {
        Palette { pos, dir: Direction::Idle }
    }

    /// Moves the paddle by one tick in the direction steered. It stops
    /// short of the side walls: a paddle inside its band stays inside.
    pub fn update(&mut self)
        ensures
            *final(self) == old(self).moved(),
            old(self).in_band() ==> final(self).in_band(),
    {
        match self.dir {
            Direction::Left => {
                if self.pos.x >= PALETTE_LEFT_STOP {
                    self.pos.x = self.pos.x - PALETTE_STEP;
                }
            },
            Direction::Right => {
                if self.pos.x < PALETTE_RIGHT_STOP {
                    self.pos.x = self.pos.x + PALETTE_STEP;
                }
            },
            Direction::Idle => {},
        }
    }
}

} // verus!
