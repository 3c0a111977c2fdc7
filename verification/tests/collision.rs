use blockbreaker::ball::Ball;
use blockbreaker::block::{Block, BlockType};
use blockbreaker::collision::{distance_between, strike};
use blockbreaker::game::GameState;
use blockbreaker::grid::{GridPosition, Vector};

fn ball(pos: (i64, i64), speed: (i64, i64), offsets: (i64, i64)) -> Ball {
    Ball {
        pos: GridPosition { x: pos.0, y: pos.1 },
        speed: Vector { x: speed.0, y: speed.1 },
        offsets: Vector { x: offsets.0, y: offsets.1 },
    }
}

fn at(x: i64, y: i64) -> GridPosition {
    GridPosition { x, y }
}

fn block_at(x: i64, y: i64, block_type: BlockType) -> Block {
    Block::new(at(x, y), block_type, 0)
}

/// A running round with the ball put where the test wants it.
fn round_with(b: Ball, blocks: Vec<Block>) -> GameState {
    let mut state = GameState::from_seed(1, 0);
    state.paused = false;
    state.ball = b;
    state.blocks = blocks;
    state
}

#[test]
fn distance_is_symmetric() {
    assert_eq!(distance_between(3, 10), 7);
    assert_eq!(distance_between(10, 3), 7);
    assert_eq!(distance_between(-4, 4), 8);
    assert_eq!(distance_between(5, 5), 0);
}

#[test]
fn centred_hit_has_no_spin() {
    // Paddle centred at column 15, ball right above its centre.
    let mut b = ball((150, 160), (120, 180), (0, 3));
    b.bounce(at(150, 170));
    assert_eq!(b.speed, Vector { x: 0, y: -180 });
}

#[test]
fn centred_hit_keeps_only_the_offset_correction() {
    let mut b = ball((150, 160), (120, 180), (7, 3));
    b.bounce(at(150, 170));
    assert_eq!(b.speed, Vector { x: 35, y: -180 });
    let mut b = ball((150, 160), (-250, 180), (-11, 0));
    b.bounce(at(150, 170));
    assert_eq!(b.speed, Vector { x: -55, y: -180 });
}

#[test]
fn off_centre_hit_spins_the_ball() {
    // Two cells right of the centre: 18 pixels per tick, plus 3.5 for an
    // offset of 7 pixels.
    let mut b = ball((170, 160), (120, 180), (7, 0));
    b.bounce(at(150, 170));
    assert_eq!(b.speed, Vector { x: 215, y: -180 });
    // 1.8 cells left of the centre of a paddle at 13.8.
    let mut b = ball((120, 160), (120, 180), (0, 0));
    b.bounce(at(138, 170));
    assert_eq!(b.speed, Vector { x: -162, y: -180 });
}

#[test]
fn bounce_leaves_position_and_offsets() {
    let mut b = ball((170, 160), (120, 180), (7, -9));
    b.bounce(at(150, 170));
    assert_eq!(b.pos, at(170, 160));
    assert_eq!(b.offsets, Vector { x: 7, y: -9 });
}

#[test]
fn palette_reaches_just_under_three_point_three_cells() {
    let mut b = ball((182, 160), (120, 180), (0, 0));
    b.bounce(at(150, 170));
    assert_eq!(b.speed, Vector { x: 288, y: -180 });
    let mut b = ball((183, 160), (120, 180), (0, 0));
    b.bounce(at(150, 170));
    assert_eq!(b.speed, Vector { x: 120, y: 180 });
    let mut b = ball((117, 160), (120, 180), (0, 0));
    b.bounce(at(150, 170));
    assert_eq!(b.speed, Vector { x: 120, y: 180 });
}

#[test]
fn palette_row_begins_one_cell_above_the_palette() {
    let mut b = ball((150, 159), (120, 180), (0, 0));
    b.bounce(at(150, 170));
    assert_eq!(b.speed, Vector { x: 120, y: 180 });
    let mut b = ball((150, 160), (120, 180), (0, 0));
    b.bounce(at(150, 170));
    assert_eq!(b.speed, Vector { x: 0, y: -180 });
    // Below the paddle it still counts.
    let mut b = ball((150, 190), (120, 180), (0, 0));
    b.bounce(at(150, 170));
    assert_eq!(b.speed, Vector { x: 0, y: -180 });
}

#[test]
fn rising_ball_passes_the_palette() {
    let mut b = ball((150, 160), (120, -180), (0, 0));
    b.bounce(at(150, 170));
    assert_eq!(b.speed, Vector { x: 120, y: -180 });
}

#[test]
fn top_wall_turns_a_rising_ball() {
    let mut b = ball((100, 0), (120, -180), (0, 0));
    b.bounce(at(150, 170));
    assert_eq!(b.speed, Vector { x: 120, y: 180 });
    let mut b = ball((100, -10), (120, -180), (0, 0));
    b.bounce(at(150, 170));
    assert_eq!(b.speed, Vector { x: 120, y: 180 });
    let mut b = ball((100, 10), (120, -180), (0, 0));
    b.bounce(at(150, 170));
    assert_eq!(b.speed, Vector { x: 120, y: -180 });
    let mut b = ball((100, 0), (120, 180), (0, 0));
    b.bounce(at(150, 170));
    assert_eq!(b.speed, Vector { x: 120, y: 180 });
}

#[test]
fn side_walls_turn_a_ball_moving_outwards() {
    let mut b = ball((0, 50), (-120, 180), (0, 0));
    b.bounce(at(150, 170));
    assert_eq!(b.speed, Vector { x: 120, y: 180 });
    let mut b = ball((0, 50), (120, 180), (0, 0));
    b.bounce(at(150, 170));
    assert_eq!(b.speed, Vector { x: 120, y: 180 });
    let mut b = ball((290, 50), (120, 180), (0, 0));
    b.bounce(at(150, 170));
    assert_eq!(b.speed, Vector { x: -120, y: 180 });
    let mut b = ball((280, 50), (120, 180), (0, 0));
    b.bounce(at(150, 170));
    assert_eq!(b.speed, Vector { x: 120, y: 180 });
    let mut b = ball((290, 50), (-120, 180), (0, 0));
    b.bounce(at(150, 170));
    assert_eq!(b.speed, Vector { x: -120, y: 180 });
}

#[test]
fn both_walls_act_in_a_corner() {
    let mut b = ball((0, 0), (-120, -180), (0, 0));
    b.bounce(at(150, 170));
    assert_eq!(b.speed, Vector { x: 120, y: 180 });
    let mut b = ball((290, 0), (120, -180), (0, 0));
    b.bounce(at(150, 170));
    assert_eq!(b.speed, Vector { x: -120, y: 180 });
    // Once turned, the ball moves inwards and is left alone.
    b.bounce(at(150, 170));
    assert_eq!(b.speed, Vector { x: -120, y: 180 });
}

#[test]
fn side_walls_act_at_the_palette_row() {
    let mut b = ball((0, 160), (-120, 180), (0, 0));
    b.bounce(at(150, 170));
    assert_eq!(b.speed, Vector { x: 120, y: 180 });
    let mut b = ball((290, 180), (120, 180), (0, 0));
    b.bounce(at(150, 170));
    assert_eq!(b.speed, Vector { x: -120, y: 180 });
    let mut b = ball((290, 200), (1, 180), (5, 5));
    b.bounce(at(150, 170));
    assert_eq!(b.speed, Vector { x: -1, y: 180 });
    // A ball that moves inwards is left alone there as anywhere.
    let mut b = ball((290, 180), (-120, 180), (0, 0));
    b.bounce(at(150, 170));
    assert_eq!(b.speed, Vector { x: -120, y: 180 });
}

#[test]
fn side_wall_turns_a_missed_ball_in_a_tick() {
    // Column 29, moving right, at the paddle's row, out of the paddle's
    // reach, no block near.
    let mut state = round_with(
        ball((290, 160), (120, 180), (3, 4)),
        vec![block_at(50, 50, BlockType::Red)],
    );
    state.palette.pos = at(150, 170);
    state.set_ball_direction(1000);
    assert_eq!(state.ball.speed, Vector { x: -120, y: 180 });
    assert_eq!(state.score, 0);
    assert!(!state.blocks[0].broken);
}

#[test]
fn palette_at_the_wall_sends_the_ball_back_with_its_spin() {
    // The paddle decides both components; the wall has its say a tick
    // later.
    let mut b = ball((0, 160), (-120, 180), (0, 0));
    b.bounce(at(18, 170));
    assert_eq!(b.speed, Vector { x: -162, y: -180 });
    b.bounce(at(18, 170));
    assert_eq!(b.speed, Vector { x: 162, y: -180 });
}

#[test]
fn strike_needs_reach_on_both_axes() {
    let block = block_at(50, 50, BlockType::Red);
    let none = Vector { x: 0, y: 0 };
    assert!(strike(at(69, 69), none, &block, 1000).is_some());
    assert!(strike(at(31, 31), none, &block, 1000).is_some());
    assert!(strike(at(70, 50), none, &block, 1000).is_none());
    assert!(strike(at(50, 70), none, &block, 1000).is_none());
    assert!(strike(at(30, 50), none, &block, 1000).is_none());
    assert!(strike(at(50, 30), none, &block, 1000).is_none());
}

#[test]
fn strike_needs_the_grace_period_to_be_over() {
    let block = Block::new(at(50, 50), BlockType::Red, 5000);
    let none = Vector { x: 0, y: 0 };
    assert!(strike(at(50, 50), none, &block, 5000).is_none());
    assert!(strike(at(50, 50), none, &block, 5100).is_none());
    assert!(strike(at(50, 50), none, &block, 5101).is_some());
    assert!(strike(at(50, 50), none, &block, 4000).is_none());
}

#[test]
fn farther_axis_turns() {
    let block = block_at(50, 50, BlockType::Red);
    let offsets = Vector { x: -5, y: 5 };
    assert_eq!(strike(at(60, 50), offsets, &block, 1000), Some(true));
    assert_eq!(strike(at(40, 50), offsets, &block, 1000), Some(true));
    let offsets = Vector { x: 5, y: -5 };
    assert_eq!(strike(at(50, 60), offsets, &block, 1000), Some(false));
    assert_eq!(strike(at(59, 40), offsets, &block, 1000), Some(false));
    assert_eq!(strike(at(61, 60), Vector { x: 9, y: 1 }, &block, 1000), Some(true));
}

#[test]
fn tie_is_broken_by_the_offsets() {
    // Block at grid (5, 5); the ball one cell away along both axes.
    let block = block_at(50, 50, BlockType::Red);
    for pos in [at(60, 60), at(40, 40), at(60, 40), at(40, 60), at(50, 50)] {
        assert_eq!(strike(pos, Vector { x: 3, y: 7 }, &block, 1000), Some(true));
        assert_eq!(strike(pos, Vector { x: 7, y: 3 }, &block, 1000), Some(false));
        assert_eq!(strike(pos, Vector { x: 4, y: 4 }, &block, 1000), Some(false));
        assert_eq!(strike(pos, Vector { x: -8, y: -7 }, &block, 1000), Some(true));
    }
}

#[test]
fn tie_break_is_the_same_every_time() {
    let blocks = vec![block_at(50, 50, BlockType::Red)];
    let mut first: Option<GameState> = None;
    for _ in 0..25 {
        let mut state = round_with(ball((60, 60), (120, -180), (3, 7)), blocks.clone());
        state.set_ball_direction(1000);
        assert_eq!(state.ball.speed, Vector { x: -120, y: -180 });
        match &first {
            Some(expected) => assert_eq!(&state, expected),
            None => first = Some(state),
        }
    }
    let mut state = round_with(ball((60, 60), (120, -180), (7, 3)), blocks);
    state.set_ball_direction(1000);
    assert_eq!(state.ball.speed, Vector { x: 120, y: 180 });
}

#[test]
fn struck_block_breaks_and_scores() {
    let mut state = round_with(
        ball((60, 50), (120, -180), (0, 0)),
        vec![block_at(50, 50, BlockType::Red)],
    );
    state.score = 4;
    state.set_ball_direction(1000);
    assert_eq!(state.score, 14);
    assert!(state.blocks[0].broken);
    assert_eq!(state.blocks.len(), 1);
    assert_eq!(state.ball.speed, Vector { x: -120, y: -180 });
    assert_eq!(state.ball.pos, at(60, 50));
}

#[test]
fn each_type_scores_its_value() {
    for (block_type, value) in [(BlockType::Red, 10), (BlockType::Blue, 5), (BlockType::Green, 3)] {
        let mut state = round_with(
            ball((60, 50), (120, -180), (0, 0)),
            vec![block_at(50, 50, block_type)],
        );
        state.set_ball_direction(1000);
        assert_eq!(state.score, value);
    }
}

#[test]
fn young_block_is_not_struck() {
    let mut state = round_with(
        ball((60, 50), (120, -180), (0, 0)),
        vec![Block::new(at(50, 50), BlockType::Red, 950)],
    );
    state.set_ball_direction(1050);
    assert_eq!(state.score, 0);
    assert!(!state.blocks[0].broken);
    assert_eq!(state.ball.speed, Vector { x: 120, y: -180 });
    state.set_ball_direction(1051);
    assert_eq!(state.score, 10);
    assert!(state.blocks[0].broken);
}

#[test]
fn distant_blocks_are_left_alone() {
    let blocks = vec![
        block_at(80, 50, BlockType::Red),
        block_at(60, 70, BlockType::Blue),
        block_at(270, 90, BlockType::Green),
    ];
    let mut state = round_with(ball((60, 50), (120, -180), (0, 0)), blocks.clone());
    state.set_ball_direction(1000);
    assert_eq!(state.blocks, blocks);
    assert_eq!(state.score, 0);
    assert_eq!(state.ball.speed, Vector { x: 120, y: -180 });
}

#[test]
fn every_block_within_reach_is_struck() {
    let blocks = vec![
        block_at(50, 50, BlockType::Red),
        block_at(200, 50, BlockType::Red),
        block_at(70, 50, BlockType::Blue),
        block_at(60, 40, BlockType::Green),
    ];
    let mut state = round_with(ball((60, 50), (120, -180), (0, 0)), blocks);
    state.set_ball_direction(1000);
    // Two turns of the horizontal velocity, one of the vertical.
    assert_eq!(state.ball.speed, Vector { x: 120, y: 180 });
    assert_eq!(state.score, 18);
    assert!(state.blocks[0].broken);
    assert!(!state.blocks[1].broken);
    assert!(state.blocks[2].broken);
    assert!(state.blocks[3].broken);
    assert_eq!(state.blocks[1], block_at(200, 50, BlockType::Red));
}

#[test]
fn wall_and_block_both_turn_the_ball() {
    // The left wall turns the ball, the block next to it turns it back.
    let mut state = round_with(
        ball((0, 50), (-120, -180), (0, 0)),
        vec![block_at(10, 50, BlockType::Blue)],
    );
    state.set_ball_direction(1000);
    assert_eq!(state.ball.speed, Vector { x: -120, y: -180 });
    assert_eq!(state.score, 5);
}

#[test]
fn palette_deflects_before_blocks_are_looked_at() {
    let mut state = round_with(ball((170, 160), (120, 180), (7, 0)), Vec::new());
    state.palette.pos = at(150, 170);
    state.set_ball_direction(1000);
    assert_eq!(state.ball.speed, Vector { x: 215, y: -180 });
    assert_eq!(state.score, 0);
}

#[test]
fn deflection_touches_nothing_else() {
    let mut state = round_with(
        ball((60, 50), (120, -180), (0, 0)),
        vec![block_at(50, 50, BlockType::Red)],
    );
    let before = state.clone();
    state.set_ball_direction(1000);
    assert_eq!(state.palette, before.palette);
    assert_eq!(state.paused, before.paused);
    assert_eq!(state.rng, before.rng);
    assert_eq!(state.last_block_add_time, before.last_block_add_time);
    assert_eq!(state.start_time, before.start_time);
    assert_eq!(state.pause_time, before.pause_time);
    assert_eq!(state.time_left, before.time_left);
    assert_eq!(state.prev_time_paused, before.prev_time_paused);
    assert_eq!(state.p_pressed, before.p_pressed);
    assert_eq!(state.ball.pos, before.ball.pos);
    assert_eq!(state.ball.offsets, before.ball.offsets);
    assert_eq!(state.blocks[0].pos, before.blocks[0].pos);
    assert_eq!(state.blocks[0].creation_time, before.blocks[0].creation_time);
}
