//! Where things are on the screen, in pixels. Drawing itself is the host's
//! business; these functions say where to draw.

use crate::ball::Ball;
use crate::block::Block;
use crate::grid::{within, GridPosition, CELL, CELL_PIXELS, LIMIT};
use crate::palette::Palette;
use vstd::prelude::*;

verus! {

/// Width of the screen: 30 cells.
pub const SCREEN_WIDTH: i64 = 960;

/// Height of the screen: 20 cells.
pub const SCREEN_HEIGHT: i64 = 640;

/// Radius of the disc that shows the ball: half a cell.
pub const BALL_RADIUS: i64 = 16;

/// Width of the paddle on the screen: five cells.
pub const PALETTE_WIDTH: i64 = 160;

/// The paddle is drawn from this far left of its centre: two cells.
pub const PALETTE_HALF_SPAN: i64 = 20;

/// Left edge of the text that shows the score: one cell from the left.
pub const SCORE_TEXT_X: i64 = 32;

/// Left edge of the text that shows the time left: 65 hundredths of the
/// width of the screen.
pub const TIME_TEXT_X: i64 = 624;

/// Top of both lines of text: a cell and a half above the bottom.
pub const TEXT_Y: i64 = SCREEN_HEIGHT - 48;

/// A rectangle on the screen: its top left corner, its width and height.
#[derive(Clone, Copy, Debug, PartialEq, Eq, Structural)]
pub struct Rect {
    pub x: i64,
    pub y: i64,
    pub w: i64,
    pub h: i64,
}

/// The whole number of cells in a coordinate, fractions dropped towards
/// zero.
pub open spec fn whole_cells(coordinate: int) -> int {
    if coordinate >= 0 {
        coordinate / (CELL as int)
    } else {
        -((-coordinate) / (CELL as int))
    }
}

/// The pixel at which the cell of a coordinate begins.
pub open spec fn cell_origin(coordinate: int) -> int {
    CELL_PIXELS * whole_cells(coordinate)
}

/// Computes [`cell_origin`].
pub fn cell_origin_of(coordinate: i64) -> (pixel: i64)
    requires
        -2 * LIMIT <= coordinate <= 2 * LIMIT,
    ensures
        pixel == cell_origin(coordinate as int),
{
    if coordinate >= 0 {
        CELL_PIXELS * (coordinate / CELL)
    } else {
        -(CELL_PIXELS * ((-coordinate) / CELL))
    }
}

/// The square of one cell that begins at the cell of `pos`.
pub open spec fn cell_rect(pos: GridPosition) -> Rect {
    Rect {
        x: cell_origin(pos.x as int) as i64,
        y: cell_origin(pos.y as int) as i64,
        w: CELL_PIXELS,
        h: CELL_PIXELS,
    }
}

/// Where the paddle is drawn: five cells wide and one high, from the cell
/// two cells left of its centre.
pub open spec fn palette_rect_of(palette: Palette) -> Rect {
    Rect {
        x: cell_origin(palette.pos.x - PALETTE_HALF_SPAN) as i64,
        y: cell_origin(palette.pos.y as int) as i64,
        w: PALETTE_WIDTH,
        h: CELL_PIXELS,
    }
}

/// Where the centre of the ball is drawn: the middle of its cell, moved by
/// its offset.
pub open spec fn ball_center_of(ball: Ball) -> (int, int) {
    (
        cell_origin(ball.pos.x as int) + ball.offsets.x + BALL_RADIUS,
        cell_origin(ball.pos.y as int) + ball.offsets.y + BALL_RADIUS,
    )
}

/// The rectangle that shows the paddle.
pub fn palette_rect(palette: &Palette) -> (rect: Rect)
    requires
        palette.pos.bounded(),
    ensures
        rect == palette_rect_of(*palette),
{
    Rect {
        x: cell_origin_of(palette.pos.x - PALETTE_HALF_SPAN),
        y: cell_origin_of(palette.pos.y),
        w: PALETTE_WIDTH,
        h: CELL_PIXELS,
    }
}

/// The square that shows a block.
pub fn block_rect(block: &Block) -> (rect: Rect)
    requires
        block.pos.bounded(),
    ensures
        rect == cell_rect(block.pos),
{
    Rect {
        x: cell_origin_of(block.pos.x),
        y: cell_origin_of(block.pos.y),
        w: CELL_PIXELS,
        h: CELL_PIXELS,
    }
}

/// The centre of the disc that shows the ball.
pub fn ball_center(ball: &Ball) -> (center: (i64, i64))
    requires
        ball.pos.bounded(),
        ball.offsets.bounded(),
    ensures
        center.0 == ball_center_of(*ball).0,
        center.1 == ball_center_of(*ball).1,
{
    (
        cell_origin_of(ball.pos.x) + ball.offsets.x + BALL_RADIUS,
        cell_origin_of(ball.pos.y) + ball.offsets.y + BALL_RADIUS,
    )
}

} // verus!
