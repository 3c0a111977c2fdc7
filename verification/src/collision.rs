//! How the ball is deflected: by the paddle, by the walls and by blocks.

use crate::ball::Ball;
use crate::block::{Block, GRACE_MS};
use crate::clock::elapsed_ms;
use crate::grid::{within, GridPosition, Vector, CELL, GRID_WIDTH, LIMIT};
use vstd::prelude::*;

verus! {

/// The paddle deflects a ball whose cell lies closer than this to the
/// paddle's centre: 3.3 cells.
pub const PALETTE_REACH: i64 = 33;

/// Tenths of a pixel per tick that a ball gains for each tenth of a cell
/// between its cell and the centre of the paddle that deflects it.
pub const SPIN: i64 = 9;

/// Tenths of a pixel per tick that a deflected ball gains for each pixel of
/// its horizontal offset.
pub const DRIFT: i64 = 5;

/// The ball strikes a block that lies closer than this along both axes: two
/// cells.
pub const BLOCK_REACH: i64 = 20;

/// Column of cells along the right wall.
pub const RIGHT_COLUMN: i64 = GRID_WIDTH - CELL;

/// The distance between two coordinates.
pub open spec fn distance(a: int, b: int) -> int {
    if a >= b {
        a - b
    } else {
        b - a
    }
}

/// Computes [`distance`].
pub fn distance_between(a: i64, b: i64) -> (d: i64)
    requires
        within(a, LIMIT),
        within(b, LIMIT),
    ensures
        d == distance(a as int, b as int),
{
    if a >= b {
        a - b
    } else {
        b - a
    }
}

/// A velocity component after `turns` reflections.
pub open spec fn reflected(speed: int, turns: nat) -> int {
    if turns % 2 == 1 {
        -speed
    } else {
        speed
    }
}

impl Ball {
    /// The ball has come down to the row above the paddle.
    pub open spec fn at_palette_row(self, palette: GridPosition) -> bool {
        self.pos.y + CELL >= palette.y && self.speed.y > 0
    }

    /// The ball's cell is within reach of the paddle's centre.
    pub open spec fn over_palette(self, palette: GridPosition) -> bool {
        distance(self.pos.x as int, palette.x as int) < PALETTE_REACH
    }

    /// Horizontal velocity of a ball that the paddle sends back: in
    /// proportion to the distance from the paddle's centre, plus a
    /// correction for the horizontal offset.
    pub open spec fn spin(self, palette: GridPosition) -> int {
        SPIN * (self.pos.x - palette.x) + DRIFT * self.offsets.x
    }

    /// The paddle sends the ball back: the ball is on its way down, at the
    /// paddle's row, within reach of the paddle's centre.
    pub open spec fn meets_palette(self, palette: GridPosition) -> bool {
        self.at_palette_row(palette) && self.over_palette(palette)
    }

    /// The ball has reached the top wall on its way up.
    pub open spec fn meets_top_wall(self) -> bool {
        self.pos.y <= 0 && self.speed.y < 0
    }

    /// The ball has reached a side wall and moves outwards.
    pub open spec fn meets_side_wall(self) -> bool {
        (self.pos.x <= 0 && self.speed.x < 0) || (self.pos.x >= RIGHT_COLUMN && self.speed.x > 0)
    }

    /// The velocity after the paddle and the walls have had their say. The
    /// paddle sends the ball back up with a spin. A ball that the paddle
    /// does not send back is turned by the walls, by each for itself and in
    /// every row: the top wall turns the vertical velocity of a rising
    /// ball, a side wall the horizontal velocity of a ball that moves
    /// outwards.
    pub open spec fn bounced_speed(self, palette: GridPosition) -> Vector {
        if self.meets_palette(palette) {
            Vector { x: self.spin(palette) as i64, y: (-self.speed.y) as i64 }
        } else {
            Vector {
                x: if self.meets_side_wall() {
                    (-self.speed.x) as i64
                } else {
                    self.speed.x
                },
                y: if self.meets_top_wall() {
                    (-self.speed.y) as i64
                } else {
                    self.speed.y
                },
            }
        }
    }

    /// The ball after the paddle and the walls have had their say.
    pub open spec fn bounced(self, palette: GridPosition) -> Ball {
        Ball { speed: self.bounced_speed(palette), ..self }
    }

    /// Lets the paddle at `palette` and the walls deflect the ball. Unless
    /// the paddle sends the ball back, each wall that the ball meets turns
    /// its component of the velocity, and nothing else changes.
    pub fn bounce(&mut self, palette: GridPosition)
        requires
            old(self).bounded(),
            palette.bounded(),
        ensures
            *final(self) == old(self).bounced(palette),
            !old(self).meets_palette(palette) && old(self).meets_side_wall()
                ==> final(self).speed.x == -old(self).speed.x,
            !old(self).meets_palette(palette) && old(self).meets_top_wall()
                ==> final(self).speed.y == -old(self).speed.y,
    {
        if self.pos.y + CELL >= palette.y && self.speed.y > 0 && distance_between(
            self.pos.x,
            palette.x,
        ) < PALETTE_REACH {
            self.speed.y = -self.speed.y;
            self.speed.x = SPIN * (self.pos.x - palette.x) + DRIFT * self.offsets.x;
        } else {
            if self.pos.y <= 0 && self.speed.y < 0 {
                self.speed.y = -self.speed.y;
            }
            if (self.pos.x <= 0 && self.speed.x < 0) || (self.pos.x >= RIGHT_COLUMN
                && self.speed.x > 0) {
                self.speed.x = -self.speed.x;
            }
        }
    }
}

/// A ball in the cell at `pos` strikes `block`: the block lies within reach
/// along both axes and is past its grace period.
pub open spec fn strikes(pos: GridPosition, block: Block, now: u64) -> bool {
    &&& distance(pos.x as int, block.pos.x as int) < BLOCK_REACH
    &&& distance(pos.y as int, block.pos.y as int) < BLOCK_REACH
    &&& block.age(now) > GRACE_MS
}

/// A strike on `block` turns the ball's horizontal velocity, and otherwise
/// its vertical one. The axis along which the block lies farther is the one
/// that turns; at equal distances it is the axis along which the ball's
/// offset is smaller, the vertical one if those are equal too.
pub open spec fn turns_x(pos: GridPosition, offsets: Vector, block: Block) -> bool {
    let dx = distance(pos.x as int, block.pos.x as int);
    let dy = distance(pos.y as int, block.pos.y as int);
    dx > dy || (dx == dy && offsets.x < offsets.y)
}

/// How a ball at `pos` with `offsets` meets `block`: `None` if it does not
/// strike it, else whether the strike turns the horizontal velocity.
pub fn strike(pos: GridPosition, offsets: Vector, block: &Block, now: u64) -> (hit: Option<bool>)
    requires
        pos.bounded(),
        block.pos.bounded(),
    ensures
        hit is Some <==> strikes(pos, *block, now),
        hit matches Some(x) ==> x == turns_x(pos, offsets, *block),
{
    let dx: i64 = distance_between(pos.x, block.pos.x);
    let dy: i64 = distance_between(pos.y, block.pos.y);
    if dx < BLOCK_REACH && dy < BLOCK_REACH && elapsed_ms(block.creation_time, now) > GRACE_MS {
        Some(dx > dy || (dx == dy && offsets.x < offsets.y))
    } else {
        None
    }
}

/// The number of blocks that a ball at `pos` strikes so that its
/// horizontal velocity turns.
pub open spec fn x_turns(pos: GridPosition, offsets: Vector, blocks: Seq<Block>, now: u64) -> nat
    decreases blocks.len(),
{
    if blocks.len() == 0 {
        0
    } else {
        let rest = x_turns(pos, offsets, blocks.drop_last(), now);
        if strikes(pos, blocks.last(), now) && turns_x(pos, offsets, blocks.last()) {
            rest + 1
        } else {
            rest
        }
    }
}

/// The number of blocks that a ball at `pos` strikes so that its vertical
/// velocity turns.
pub open spec fn y_turns(pos: GridPosition, offsets: Vector, blocks: Seq<Block>, now: u64) -> nat
    decreases blocks.len(),
{
    if blocks.len() == 0 {
        0
    } else {
        let rest = y_turns(pos, offsets, blocks.drop_last(), now);
        if strikes(pos, blocks.last(), now) && !turns_x(pos, offsets, blocks.last()) {
            rest + 1
        } else {
            rest
        }
    }
}

/// The points that the blocks struck by a ball at `pos` are worth.
pub open spec fn points(pos: GridPosition, blocks: Seq<Block>, now: u64) -> int
    decreases blocks.len(),
{
    if blocks.len() == 0 {
        0
    } else {
        let rest = points(pos, blocks.drop_last(), now);
        if strikes(pos, blocks.last(), now) {
            rest + blocks.last().block_type.spec_value()
        } else {
            rest
        }
    }
}

/// The blocks after a ball at `pos` has struck: each block within reach is
/// broken, the others are as before.
pub open spec fn struck(pos: GridPosition, blocks: Seq<Block>, now: u64) -> Seq<Block> {
    Seq::new(
        blocks.len(),
        |i: int|
            if strikes(pos, blocks[i], now) {
                Block { broken: true, ..blocks[i] }
            } else {
                blocks[i]
            },
    )
}

/// No more than ten points come from each block.
pub proof fn lemma_points_bounds(pos: GridPosition, blocks: Seq<Block>, now: u64)
    ensures
        0 <= points(pos, blocks, now) <= 10 * blocks.len(),
    decreases blocks.len(),
{
    if blocks.len() > 0 {
        lemma_points_bounds(pos, blocks.drop_last(), now);
    }
}

} // verus!
