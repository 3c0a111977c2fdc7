//! What holds of the game whatever the player does.

use crate::ball::{
    cell_per_tick, moved_offset, round_tenths, stepped_axis, within_cell, Ball, SERVE_SPEED_Y,
};
use crate::block::{Block, BlockType, BLUE_BELOW, RED_BELOW, SAMPLES};
use crate::clock::TIME_LIMIT;
use crate::collision::{points, strikes, struck, x_turns, y_turns, DRIFT};
use crate::game::{serve_position, standing, GameModel, Input, MISS_PENALTY, PALETTE_Y};
use crate::grid::{GridPosition, Vector, CELL, CELL_PIXELS, GRID_HEIGHT};
use crate::palette::{Direction, Palette};
use vstd::prelude::*;

verus! {

/// Rounding picks the nearest whole number: the result lies no more than
/// half a unit from the exact value, and a value exactly halfway goes
/// away from zero.
pub proof fn lemma_round_tenths_nearest(tenths: int)
    ensures
        10 * round_tenths(tenths) - 5 <= tenths <= 10 * round_tenths(tenths) + 5,
        tenths >= 0 ==> tenths < 10 * round_tenths(tenths) + 5,
        tenths < 0 ==> tenths > 10 * round_tenths(tenths) - 5,
        round_tenths(-tenths) == -round_tenths(tenths),
{
}

/// An offset within one cell stays within one cell as long as the ball
/// covers no more than one cell per tick.
pub proof fn lemma_offset_stays_within_cell(pos: int, offset: int, speed: int)
    requires
        within_cell(offset),
        cell_per_tick(speed),
    ensures
        within_cell(stepped_axis(pos, offset, speed).1),
{
}

/// A ball that covers no more than one cell per tick and whose offsets lie
/// within one cell has its offsets within one cell after the tick.
pub proof fn lemma_ball_offsets_stay_within_cell(ball: Ball)
    requires
        ball.offsets_within_cell(),
        ball.speed_within_cell(),
    ensures
        ball.moved().offsets_within_cell(),
        ball.moved().speed_within_cell(),
{
    lemma_offset_stays_within_cell(
        ball.pos.x as int,
        ball.offsets.x as int,
        ball.speed.x as int,
    );
    lemma_offset_stays_within_cell(
        ball.pos.y as int,
        ball.offsets.y as int,
        ball.speed.y as int,
    );
}

/// An offset ends a tick within one cell exactly when the tick did not
/// carry it past two cells: one cell is all that a tick trades in.
pub proof fn lemma_offset_within_cell_iff(pos: int, offset: int, speed: int)
    ensures
        within_cell(stepped_axis(pos, offset, speed).1) <==> -2 * CELL_PIXELS <= moved_offset(
            offset,
            speed,
        ) <= 2 * CELL_PIXELS,
{
}

/// The paddle cannot leave its band, wherever it is steered.
pub proof fn lemma_palette_stays_in_band(palette: Palette)
    requires
        palette.in_band(),
    ensures
        palette.moved().in_band(),
{
}

/// A ball that comes down on the very centre of the paddle goes back up
/// with no spin: its horizontal velocity is the correction for its offset
/// and nothing else.
pub proof fn lemma_centred_hit(ball: Ball, palette: GridPosition)
    requires
        ball.bounded(),
        ball.at_palette_row(palette),
        ball.pos.x == palette.x,
    ensures
        ball.bounced(palette).speed.x == DRIFT * ball.offsets.x,
        ball.bounced(palette).speed.y == -ball.speed.y,
        ball.bounced(palette).pos == ball.pos,
        ball.bounced(palette).offsets == ball.offsets,
{
}

/// A ball below the field, wherever it is and however it moves, is served
/// again from the same place with the same velocity, and costs the
/// penalty.
pub proof fn lemma_miss_is_served_again(state: GameModel)
    requires
        state.missed(),
        state.score - MISS_PENALTY >= i64::MIN,
    ensures
        state.restarted().ball.pos == serve_position(),
        state.restarted().ball.speed == Ball::served(serve_position()).speed,
        state.restarted().score == state.score - MISS_PENALTY,
        state.restarted().paused,
        state.restarted().ball.offsets == state.ball.offsets,
        !state.restarted().missed(),
{
}

/// The shares of the three types among the equally likely samples: red is
/// the smallest number of samples that makes up a tenth, red and blue
/// together the smallest that makes up four tenths.
pub proof fn lemma_type_shares()
    ensures
        10 * (RED_BELOW - 1) < SAMPLES <= 10 * RED_BELOW,
        10 * (BLUE_BELOW - 1) < 4 * SAMPLES <= 10 * BLUE_BELOW,
        forall|draw: u32| #[trigger] BlockType::sample(draw) < SAMPLES,
        forall|draw: u32|
            BlockType::of_draw(draw) == BlockType::Red <==> #[trigger] BlockType::sample(draw)
                < RED_BELOW,
        forall|draw: u32|
            BlockType::of_draw(draw) == BlockType::Green <==> #[trigger] BlockType::sample(draw)
                >= BLUE_BELOW,
{
}

/// While a pause goes on the time left does not move: it is what it was
/// when the pause began, whatever the clock reads since.
pub proof fn lemma_pause_freezes_time_left(state: GameModel, since: u64, now: u64)
    requires
        state.pause_time == Some(since),
        since <= now,
    ensures
        state.time_left_at(now) == state.time_left_at(since),
        state.time_played(now) == state.time_played(since),
{
}

/// A tick without keys changes nothing while the game is paused: paddle,
/// ball, blocks, score and the time left stay as they are, however many
/// such ticks go by.
pub proof fn lemma_idle_tick_while_paused(state: GameModel, since: u64, input: Input)
    requires
        state.paused,
        state.pause_time == Some(since),
        since <= input.now,
        !input.left,
        !input.right,
        !input.pause,
        !state.p_pressed,
        state.palette.dir == Direction::Idle,
        state.time_left == state.time_left_at(since),
    ensures
        state.ticked(input) == state,
{
}

/// The first tick without keys of a pause dates the pause and changes
/// nothing else but the time left, which from then on stays.
pub proof fn lemma_idle_ticks_while_paused(state: GameModel, first: Input, second: Input)
    requires
        state.paused,
        !state.p_pressed,
        !first.left && !first.right && !first.pause,
        !second.left && !second.right && !second.pause,
        first.now <= second.now,
        state.pause_time matches Some(since) ==> since <= first.now,
        !state.over(first.now),
    ensures
        state.ticked(first).ticked(second) == state.ticked(first),
        state.ticked(first).paused,
        state.ticked(first).ball == state.ball,
        state.ticked(first).blocks == state.blocks,
        state.ticked(first).score == state.score,
        state.ticked(first).palette.pos == state.palette.pos,
{
    let after = state.ticked(first);
    let since = after.pause_time->0;
    lemma_pause_freezes_time_left(after, since, first.now);
    lemma_pause_freezes_time_left(after, since, second.now);
}

/// While a pause goes on a block does not fade: once it has seen the
/// pause, the time it has left is the same at every later look at the
/// clock, and so is whether it is broken. This holds of two looks at one
/// block, and of a second look after a first that left the block standing.
pub proof fn lemma_pause_freezes_block(block: Block, since: u64, earlier: u64, later: u64)
    requires
        !block.broken,
        block.pause_time == Some(since),
        block.creation_time <= since,
        since <= earlier <= later,
    ensures
        block.faded(true, later).remaining(later) == block.faded(true, earlier).remaining(
            earlier,
        ),
        block.faded(true, later).broken == block.faded(true, earlier).broken,
        !block.faded(true, earlier).broken ==> block.faded(true, earlier).faded(
            true,
            later,
        ).remaining(later) == block.faded(true, earlier).remaining(earlier),
        block.faded(true, earlier).faded(true, later).broken == block.faded(true, earlier).broken,
{
}

/// A round is well formed as it begins.
pub proof fn lemma_round_begins_well_formed(seed: u64, now: u64)
    ensures
        GameModel::initial(seed, now).well_formed(),
        GameModel::initial(seed, now).accepts_tick(now) <==> now <= TIME_LIMIT,
{
}

/// Blocks that the ball does not strike do nothing: none is broken,
/// nothing is scored and the ball is not turned.
pub proof fn lemma_no_strike_no_turn(
    pos: GridPosition,
    offsets: Vector,
    blocks: Seq<Block>,
    now: u64,
)
    requires
        forall|i: int| 0 <= i < blocks.len() ==> !strikes(pos, #[trigger] blocks[i], now),
    ensures
        x_turns(pos, offsets, blocks, now) == 0,
        y_turns(pos, offsets, blocks, now) == 0,
        points(pos, blocks, now) == 0,
        struck(pos, blocks, now) == blocks,
    decreases blocks.len(),
{
    if blocks.len() > 0 {
        assert(!strikes(pos, blocks[blocks.len() - 1], now));
        lemma_no_strike_no_turn(pos, offsets, blocks.drop_last(), now);
    }
    assert(struck(pos, blocks, now) =~= blocks);
}

/// A ball at or above the row over the field is out of reach of every
/// block: it strikes none, scores nothing and is not turned.
pub proof fn lemma_no_strike_above_field(
    pos: GridPosition,
    offsets: Vector,
    blocks: Seq<Block>,
    now: u64,
)
    requires
        pos.y <= -CELL,
        forall|i: int| 0 <= i < blocks.len() ==> GameModel::in_spawn_area((#[trigger] blocks[i]).pos),
    ensures
        x_turns(pos, offsets, blocks, now) == 0,
        y_turns(pos, offsets, blocks, now) == 0,
        points(pos, blocks, now) == 0,
        struck(pos, blocks, now) == blocks,
{
    assert forall|i: int| 0 <= i < blocks.len() implies !strikes(pos, #[trigger] blocks[i], now) by {
        assert(GameModel::in_spawn_area(blocks[i].pos));
    }
    lemma_no_strike_no_turn(pos, offsets, blocks, now);
}

/// The walls act in every row and each for itself. Where the paddle does
/// not send the ball back and no block is struck, a ball that has reached
/// a side wall and moves outwards has its horizontal velocity turned, and
/// a rising ball that has reached the top wall its vertical one: also at
/// the paddle's row, and also both in a corner. A component that meets no
/// wall stays as it is.
pub proof fn lemma_walls_turn_the_ball(state: GameModel, now: u64)
    requires
        state.ball.bounded(),
        !state.ball.meets_palette(state.palette.pos),
        forall|i: int|
            0 <= i < state.blocks.len() ==> !strikes(state.ball.pos, #[trigger] state.blocks[i], now),
    ensures
        state.ball.meets_side_wall() ==> state.deflected(now).ball.speed.x == -state.ball.speed.x,
        !state.ball.meets_side_wall() ==> state.deflected(now).ball.speed.x == state.ball.speed.x,
        state.ball.meets_top_wall() ==> state.deflected(now).ball.speed.y == -state.ball.speed.y,
        !state.ball.meets_top_wall() ==> state.deflected(now).ball.speed.y == state.ball.speed.y,
        state.deflected(now).blocks == state.blocks,
        state.deflected(now).score == state.score,
{
    lemma_no_strike_no_turn(state.ball.pos, state.ball.offsets, state.blocks, now);
}

/// Taking the broken blocks off the field leaves the others where they
/// were.
pub proof fn lemma_pruned_blocks_stay(state: GameModel)
    requires
        state.blocks_in_spawn_area(),
    ensures
        state.pruned().blocks_in_spawn_area(),
{
    let kept = state.pruned().blocks;
    assert forall|i: int| 0 <= i < kept.len() implies GameModel::in_spawn_area(
        (#[trigger] kept[i]).pos,
    ) by {
        state.blocks.lemma_filter_contains_rev(standing(), kept[i]);
    }
}

/// A tick keeps the ball in play. In particular the ball never ends a tick
/// below the field, the top wall never lets it get higher than the row
/// above the field, and its vertical offset stays within one cell: nothing
/// in the game changes how fast the ball rises or falls, only which way.
pub proof fn lemma_tick_keeps_ball_in_play(state: GameModel, input: Input)
    requires
        state.ball_in_play(),
        state.blocks_in_spawn_area(),
        state.palette.pos.y == PALETTE_Y,
        state.ball.pos.bounded(),
    ensures
        state.ticked(input).ball_in_play(),
{
    if !state.over(input.now) {
        let timed = GameModel { time_left: state.time_left_at(input.now) as i64, ..state };
        let ready = timed.steered(input.left, input.right).toggled(input.pause).accounted(
            input.now,
        ).resumed();
        assert(ready.ball == state.ball && ready.blocks == state.blocks);
        assert(ready.palette.pos == state.palette.pos);
        if !ready.paused {
            let before = state.ball;
            let moved = ready.moved();
            let after = moved.ball;
            // The ball rises or falls by 18 pixels: at most one row, and
            // only in the direction of its velocity.
            assert(after.speed == before.speed);
            assert(-CELL_PIXELS <= after.offsets.y <= CELL_PIXELS);
            assert(after.pos.x % CELL == 0 && after.pos.y % CELL == 0);
            assert(before.speed.y > 0 ==> before.pos.y <= after.pos.y <= before.pos.y + CELL);
            assert(before.speed.y < 0 ==> before.pos.y - CELL <= after.pos.y <= before.pos.y);
            assert(-CELL <= after.pos.y <= GRID_HEIGHT + CELL);
            assert(moved.palette.pos.y == PALETTE_Y);
            let pruned = moved.pruned();
            lemma_pruned_blocks_stay(moved);
            // Above the field the top wall sends the ball down, the paddle
            // is far away, and no block is within reach to turn it back.
            let bounced = pruned.ball.bounced(pruned.palette.pos);
            assert(bounced.pos == after.pos && bounced.offsets == after.offsets);
            assert(bounced.speed.y == SERVE_SPEED_Y || bounced.speed.y == -SERVE_SPEED_Y);
            assert(bounced.pos.y < 0 ==> bounced.speed.y > 0);
            if bounced.pos.y < 0 {
                lemma_no_strike_above_field(
                    bounced.pos,
                    bounced.offsets,
                    pruned.blocks,
                    input.now,
                );
            }
            let deflected = pruned.deflected(input.now);
            assert(deflected.ball.pos == after.pos && deflected.ball.offsets == after.offsets);
            assert(deflected.ball.speed.y == SERVE_SPEED_Y || deflected.ball.speed.y
                == -SERVE_SPEED_Y);
            assert(deflected.ball.pos.y < 0 ==> deflected.ball.speed.y > 0);
            let spawned = deflected.spawned(input.now);
            assert(spawned.ball == deflected.ball);
            assert(spawned.restarted().ball_in_play());
        }
    }
}

/// A tick keeps the blocks where blocks appear, as long as the block that
/// may appear in it does so too, which is what the generator is trusted to
/// see to.
pub proof fn lemma_tick_keeps_blocks_in_spawn_area(state: GameModel, input: Input)
    requires
        state.blocks_in_spawn_area(),
        GameModel::in_spawn_area(state.next_block(input.now).pos),
    ensures
        state.ticked(input).blocks_in_spawn_area(),
{
    if !state.over(input.now) {
        let timed = GameModel { time_left: state.time_left_at(input.now) as i64, ..state };
        let ready = timed.steered(input.left, input.right).toggled(input.pause).accounted(
            input.now,
        ).resumed();
        assert(ready.blocks == state.blocks && ready.rng == state.rng);
        if !ready.paused {
            let moved = ready.moved();
            lemma_pruned_blocks_stay(moved);
            let deflected = moved.pruned().deflected(input.now);
            assert(deflected.blocks_in_spawn_area());
            assert(deflected.next_block(input.now) == state.next_block(input.now));
            let spawned = deflected.spawned(input.now);
            assert(spawned.blocks_in_spawn_area());
            assert(spawned.restarted().blocks == spawned.blocks);
        }
    }
}

/// A tick keeps a round well formed, as long as the block that may appear
/// in it appears where blocks do.
pub proof fn lemma_tick_keeps_round_well_formed(state: GameModel, input: Input)
    requires
        state.well_formed(),
        state.ball.pos.bounded(),
        GameModel::in_spawn_area(state.next_block(input.now).pos),
    ensures
        state.ticked(input).well_formed(),
{
    lemma_tick_keeps_ball_in_play(state, input);
    lemma_tick_keeps_blocks_in_spawn_area(state, input);
}

} // verus!
