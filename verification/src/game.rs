//! The state of a round and the rules that advance it by one tick.

use crate::ball::{within_cell, Ball, SERVE_SPEED_X, SERVE_SPEED_Y};
use crate::block::{random_block_type, Block, BlockType};
use crate::clock::{elapsed, elapsed_ms, TIME_LIMIT};
use crate::collision::{lemma_points_bounds, points, reflected, strike, struck, x_turns, y_turns};
use crate::grid::{
    is_within, within, GridPosition, Vector, CELL, GRID_HEIGHT, LIMIT, TICK_LIMIT,
};
use crate::laws::{lemma_round_begins_well_formed, lemma_tick_keeps_ball_in_play};
use crate::palette::{Direction, Palette};
use crate::rng::{entropy_seed, Rng};
use vstd::prelude::*;

verus! {

/// Length of a round, in seconds of play.
pub const ROUND_SECONDS: i64 = 10;

/// Seconds shown as left before the first tick has looked at the clock.
pub const OPENING_TIME_LEFT: i64 = 60;

/// Points lost when the ball gets past the paddle.
pub const MISS_PENALTY: i64 = 10;

/// A new block appears only when more than this many milliseconds have
/// gone by since the last one.
pub const SPAWN_INTERVAL_MS: u64 = 1000;

/// Leftmost column in which new blocks appear.
pub const SPAWN_MIN_COLUMN: u32 = 1;

/// First column right of those in which new blocks appear.
pub const SPAWN_END_COLUMN: u32 = 28;

/// Topmost row in which new blocks appear.
pub const SPAWN_MIN_ROW: u32 = 1;

/// First row below those in which new blocks appear: well above the
/// paddle.
pub const SPAWN_END_ROW: u32 = 10;

/// The middle column, where ball and paddle start.
pub const MIDDLE_X: i64 = 150;

/// The row that the ball is served from, five rows from the bottom.
pub const SERVE_Y: i64 = 150;

/// The row of the paddle, three rows from the bottom.
pub const PALETTE_Y: i64 = 170;

/// Where the ball is served from.
pub open spec fn serve_position() -> GridPosition {
    GridPosition { x: MIDDLE_X, y: SERVE_Y }
}

/// Where the paddle starts.
pub open spec fn palette_position() -> GridPosition {
    GridPosition { x: MIDDLE_X, y: PALETTE_Y }
}

/// Holds of the blocks that are not broken.
pub open spec fn standing() -> spec_fn(Block) -> bool {
    |b: Block| !b.broken
}

/// What the host samples once per tick: the three keys and the clock.
#[derive(Clone, Copy, Debug, PartialEq, Eq)]
pub struct Input {
    /// The left arrow key is down.
    pub left: bool,
    /// The right arrow key is down.
    pub right: bool,
    /// The pause key is down.
    pub pause: bool,
    /// The clock, in milliseconds.
    pub now: u64,
}

/// What the host is to do after a tick.
#[derive(Clone, Copy, Debug, PartialEq, Eq, Structural)]
pub enum Outcome {
    /// Go on with the next tick.
    Continue,
    /// The round is over: report the score and stop.
    RoundOver { score: i64 },
}

/// The state of a round.
#[derive(Clone, Debug, PartialEq, Eq)]
pub struct GameState {
    pub palette: Palette,
    pub ball: Ball,
    /// The blocks on the field, oldest first.
    pub blocks: Vec<Block>,
    pub paused: bool,
    /// Clock reading when the last block appeared.
    pub last_block_add_time: u64,
    pub rng: Rng,
    pub score: i64,
    /// Clock reading when the round began.
    pub start_time: u64,
    /// Clock reading when the pause that is going on was first seen.
    pub pause_time: Option<u64>,
    /// Whole seconds of play left, as of the last tick.
    pub time_left: i64,
    /// Milliseconds paused during the pauses that have ended.
    pub prev_time_paused: u64,
    /// The pause key was down at the last tick.
    pub p_pressed: bool,
}

/// The state of a round as a mathematical value: [`GameState`] with the
/// blocks as a sequence.
pub struct GameModel {
    pub palette: Palette,
    pub ball: Ball,
    pub blocks: Seq<Block>,
    pub paused: bool,
    pub last_block_add_time: u64,
    pub rng: Rng,
    pub score: i64,
    pub start_time: u64,
    pub pause_time: Option<u64>,
    pub time_left: i64,
    pub prev_time_paused: u64,
    pub p_pressed: bool,
}

impl View for GameState {
    type V = GameModel;

    open spec fn view(&self) -> GameModel {
        GameModel {
            palette: self.palette,
            ball: self.ball,
            blocks: self.blocks@,
            paused: self.paused,
            last_block_add_time: self.last_block_add_time,
            rng: self.rng,
            score: self.score,
            start_time: self.start_time,
            pause_time: self.pause_time,
            time_left: self.time_left,
            prev_time_paused: self.prev_time_paused,
            p_pressed: self.p_pressed,
        }
    }
}

impl GameModel {
    /// Every block lies within `limit`.
    pub open spec fn blocks_bounded_by(self, limit: i64) -> bool {
        forall|i: int|
            0 <= i < self.blocks.len() ==> (#[trigger] self.blocks[i]).pos.bounded_by(limit)
    }

    /// Paddle, ball, blocks and score lie within `limit`, and there are no
    /// more than `limit` blocks.
    pub open spec fn bounded_by(self, limit: i64) -> bool {
        &&& self.palette.pos.bounded_by(limit)
        &&& self.ball.bounded_by(limit)
        &&& self.blocks_bounded_by(limit)
        &&& self.blocks.len() <= limit
        &&& within(self.score, limit)
    }

    /// `pos` is the corner of a cell in which new blocks appear.
    pub open spec fn in_spawn_area(pos: GridPosition) -> bool {
        &&& CELL * SPAWN_MIN_COLUMN <= pos.x < CELL * SPAWN_END_COLUMN
        &&& CELL * SPAWN_MIN_ROW <= pos.y < CELL * SPAWN_END_ROW
    }

    /// Every block is where new blocks appear. This holds as a round
    /// begins and every tick keeps it.
    pub open spec fn blocks_in_spawn_area(self) -> bool {
        forall|i: int|
            0 <= i < self.blocks.len() ==> GameModel::in_spawn_area(
                (#[trigger] self.blocks[i]).pos,
            )
    }

    /// The ball is in play: it sits on a whole cell, no higher than the row
    /// above the field and no lower than the bottom row; it rises or falls
    /// at the speed of a serve with its vertical offset within one cell;
    /// and above the field it is on its way down.
    pub open spec fn ball_in_play(self) -> bool {
        &&& self.ball.pos.x % CELL == 0
        &&& self.ball.pos.y % CELL == 0
        &&& -CELL <= self.ball.pos.y <= GRID_HEIGHT
        &&& self.ball.pos.y < 0 ==> self.ball.speed.y > 0
        &&& self.ball.speed.y == SERVE_SPEED_Y || self.ball.speed.y == -SERVE_SPEED_Y
        &&& within_cell(self.ball.offsets.y as int)
    }

    /// What holds of a round from its beginning to its end: the paddle is
    /// in its row and within its band, the ball is in play, the blocks are
    /// where blocks appear, and the generator is valid.
    pub open spec fn well_formed(self) -> bool {
        &&& self.palette.pos.y == PALETTE_Y
        &&& self.palette.in_band()
        &&& self.ball_in_play()
        &&& self.blocks_in_spawn_area()
        &&& self.rng.valid()
    }

    /// The state and the clock reading `now` are small enough for a tick,
    /// and the generator is valid, so that a block can be drawn.
    pub open spec fn accepts_tick(self, now: u64) -> bool {
        &&& self.bounded_by(TICK_LIMIT)
        &&& self.prev_time_paused <= TIME_LIMIT
        &&& now <= TIME_LIMIT
        &&& self.rng.valid()
    }

    /// The pause accounts of the blocks and the clock reading `now` are
    /// small enough for the blocks to look at the clock.
    pub open spec fn accepts_fade(self, now: u64) -> bool {
        &&& forall|i: int|
            0 <= i < self.blocks.len() ==> (#[trigger] self.blocks[i]).accounts_bounded()
        &&& now <= TIME_LIMIT
    }

    /// The round as it begins when the clock reads `now`: paused, with the
    /// ball ready to be served and no blocks.
    pub open spec fn initial(seed: u64, now: u64) -> GameModel {
        GameModel {
            palette: Palette { pos: palette_position(), dir: Direction::Idle },
            ball: Ball::served(serve_position()),
            blocks: Seq::empty(),
            paused: true,
            last_block_add_time: now,
            rng: Rng::seeded(seed),
            score: 0,
            start_time: now,
            pause_time: Some(now),
            time_left: OPENING_TIME_LEFT,
            prev_time_paused: 0,
            p_pressed: false,
        }
    }

    /// Milliseconds that the round has been paused when the clock reads
    /// `now`: the pauses that have ended and the one that is going on.
    pub open spec fn time_paused(self, now: u64) -> int {
        self.prev_time_paused + match self.pause_time {
            Some(since) => elapsed(since, now) as int,
            None => 0,
        }
    }

    /// Milliseconds of play when the clock reads `now`: the time since the
    /// round began, not counting the time paused.
    pub open spec fn time_played(self, now: u64) -> int {
        if elapsed(self.start_time, now) >= self.time_paused(now) {
            elapsed(self.start_time, now) - self.time_paused(now)
        } else {
            0
        }
    }

    /// Whole seconds of play left when the clock reads `now`.
    pub open spec fn time_left_at(self, now: u64) -> int {
        ROUND_SECONDS - self.time_played(now) / 1000
    }

    /// The paddle steers where the arrow keys ask.
    pub open spec fn steered(self, left: bool, right: bool) -> GameModel {
        GameModel {
            palette: Palette { dir: Direction::of_keys(left, right), ..self.palette },
            ..self
        }
    }

    /// The pause key is looked at: letting go of it turns the pause on or
    /// off.
    pub open spec fn toggled(self, pause_key: bool) -> GameModel {
        GameModel {
            p_pressed: pause_key,
            paused: if self.p_pressed && !pause_key {
                !self.paused
            } else {
                self.paused
            },
            ..self
        }
    }

    /// The pause account is brought up to `now`: a pause that begins is
    /// dated, one that has ended is added to the time paused.
    pub open spec fn accounted(self, now: u64) -> GameModel {
        if self.paused {
            GameModel {
                pause_time: Some(
                    match self.pause_time {
                        Some(since) => since,
                        None => now,
                    },
                ),
                ..self
            }
        } else {
            GameModel {
                pause_time: None,
                prev_time_paused: self.time_paused(now) as u64,
                ..self
            }
        }
    }

    /// Steering ends a pause.
    pub open spec fn resumed(self) -> GameModel {
        GameModel { paused: self.paused && self.palette.dir == Direction::Idle, ..self }
    }

    /// The broken blocks leave the field.
    pub open spec fn pruned(self) -> GameModel {
        GameModel { blocks: self.blocks.filter(standing()), ..self }
    }

    /// The paddle, the walls and then the blocks deflect the ball. Each
    /// block struck breaks, scores its value and turns one component of the
    /// velocity.
    pub open spec fn deflected(self, now: u64) -> GameModel {
        let ball = self.ball.bounced(self.palette.pos);
        GameModel {
            ball: Ball {
                speed: Vector {
                    x: reflected(
                        ball.speed.x as int,
                        x_turns(ball.pos, ball.offsets, self.blocks, now),
                    ) as i64,
                    y: reflected(
                        ball.speed.y as int,
                        y_turns(ball.pos, ball.offsets, self.blocks, now),
                    ) as i64,
                },
                ..ball
            },
            blocks: struck(ball.pos, self.blocks, now),
            score: (self.score + points(ball.pos, self.blocks, now)) as i64,
            ..self
        }
    }

    /// A new block is due when the clock reads `now`.
    pub open spec fn spawn_due(self, now: u64) -> bool {
        elapsed(self.last_block_add_time, now) > SPAWN_INTERVAL_MS
    }

    /// The block that appears next: three draws pick its column, its row
    /// and its type.
    pub open spec fn next_block(self, now: u64) -> Block {
        Block::created(
            GridPosition::random_cell(
                self.rng,
                SPAWN_MIN_COLUMN,
                SPAWN_END_COLUMN,
                SPAWN_MIN_ROW,
                SPAWN_END_ROW,
            ),
            BlockType::of_draw(
                GridPosition::random_rng(
                    self.rng,
                    SPAWN_MIN_COLUMN,
                    SPAWN_END_COLUMN,
                    SPAWN_MIN_ROW,
                    SPAWN_END_ROW,
                ).peek_u32(),
            ),
            now,
        )
    }

    /// A new block appears if one is due.
    pub open spec fn spawned(self, now: u64) -> GameModel {
        if self.spawn_due(now) {
            GameModel {
                blocks: self.blocks.push(self.next_block(now)),
                rng: GridPosition::random_rng(
                    self.rng,
                    SPAWN_MIN_COLUMN,
                    SPAWN_END_COLUMN,
                    SPAWN_MIN_ROW,
                    SPAWN_END_ROW,
                ).after_u32(),
                last_block_add_time: now,
                ..self
            }
        } else {
            self
        }
    }

    /// The ball has got past the paddle and left the field at the bottom.
    pub open spec fn missed(self) -> bool {
        self.ball.pos.y > GRID_HEIGHT
    }

    /// A ball that was missed is served again, at the price of the
    /// penalty, and the game waits paused. The offsets stay as they are.
    pub open spec fn restarted(self) -> GameModel {
        if self.missed() {
            GameModel {
                ball: Ball {
                    pos: serve_position(),
                    speed: Vector { x: SERVE_SPEED_X, y: SERVE_SPEED_Y },
                    ..self.ball
                },
                score: (self.score - MISS_PENALTY) as i64,
                paused: true,
                ..self
            }
        } else {
            self
        }
    }

    /// Paddle and ball move by one tick.
    pub open spec fn moved(self) -> GameModel {
        GameModel { palette: self.palette.moved(), ball: self.ball.moved(), ..self }
    }

    /// One tick of play: paddle and ball move, the broken blocks leave,
    /// the ball is deflected, a block may appear, a miss is dealt with.
    pub open spec fn played(self, now: u64) -> GameModel {
        self.moved().pruned().deflected(now).spawned(now).restarted()
    }

    /// Every block has looked at the clock: see [`Block::faded`].
    pub open spec fn faded(self, now: u64) -> GameModel {
        GameModel {
            blocks: Seq::new(self.blocks.len(), |i: int| self.blocks[i].faded(self.paused, now)),
            ..self
        }
    }

    /// What the host is told after the tick that `input` describes.
    pub open spec fn outcome(self, input: Input) -> Outcome {
        if self.over(input.now) {
            Outcome::RoundOver { score: self.score }
        } else {
            Outcome::Continue
        }
    }

    /// The round is over when the clock reads `now`.
    pub open spec fn over(self, now: u64) -> bool {
        self.time_left_at(now) <= 0
    }

    /// The state after the tick that `input` describes. The time left is
    /// read off the clock first; if none is left, nothing else happens.
    /// Otherwise the keys are looked at, the pause account is brought up
    /// to date, and unless the game is paused one tick is played.
    pub open spec fn ticked(self, input: Input) -> GameModel {
        let timed = GameModel { time_left: self.time_left_at(input.now) as i64, ..self };
        if self.over(input.now) {
            timed
        } else {
            let ready = timed.steered(input.left, input.right).toggled(input.pause).accounted(
                input.now,
            ).resumed();
            if ready.paused {
                ready
            } else {
                ready.played(input.now)
            }
        }
    }
}

impl GameState {
    /// Begins a round with a generator started from `seed`, when the clock
    /// reads `now`.
    pub fn from_seed(seed: u64, now: u64) -> (state: GameState)
        ensures
            state@ == GameModel::initial(seed, now),
            state@.well_formed(),
    {
        proof {
            lemma_round_begins_well_formed(seed, now);
        }
        GameState {
            palette: Palette::new(GridPosition { x: MIDDLE_X, y: PALETTE_Y }),
            ball: Ball::new(GridPosition { x: MIDDLE_X, y: SERVE_Y }),
            blocks: Vec::new(),
            paused: true,
            last_block_add_time: now,
            rng: Rng::new(seed),
            score: 0,
            start_time: now,
            pause_time: Some(now),
            time_left: OPENING_TIME_LEFT,
            prev_time_paused: 0,
            p_pressed: false,
        }
    }

    /// Begins a round when the clock reads `now`, with a generator started
    /// from a seed that the operating system supplies. `None` when the
    /// system supplies none.
    pub fn new(now: u64) -> (state: Option<GameState>)
        ensures
            state matches Some(s) ==> exists|seed: u64| s@ == GameModel::initial(seed, now),
            state matches Some(s) ==> s@.well_formed(),
    {
        GameState::from_entropy(entropy_seed(), now)
    }

    /// Begins a round with what the operating system had to give when it
    /// was asked for a seed: the round that the seed starts, or no round
    /// where there was no seed.
    pub fn from_entropy(seed: Option<u64>, now: u64) -> (state: Option<GameState>)
        ensures
            seed matches Some(word) ==> {
                &&& state matches Some(s)
                &&& s@ == GameModel::initial(word, now)
                &&& s@.well_formed()
            },
            seed is None ==> state is None,
    {
        match seed {
            Some(word) => Some(GameState::from_seed(word, now)),
            None => None,
        }
    }

    /// Computes [`GameModel::bounded_by`].
    pub fn is_bounded_by(&self, limit: i64) -> (r: bool)
        ensures
            r == self@.bounded_by(limit),
    {
        if !(self.palette.pos.is_bounded_by(limit) && self.ball.is_bounded_by(limit) && is_within(
            self.score,
            limit,
        )) {
            return false;
        }
        if self.blocks.len() as u64 > limit as u64 {
            return false;
        }
        let mut i: usize = 0;
        while i < self.blocks.len()
            invariant
                i <= self.blocks.len(),
                forall|j: int| 0 <= j < i ==> (#[trigger] self.blocks@[j]).pos.bounded_by(limit),
            decreases self.blocks.len() - i,
        {
            if !self.blocks[i].pos.is_bounded_by(limit) {
                return false;
            }
            i = i + 1;
        }
        true
    }

    /// Whether [`GameState::update`] may be called when the clock reads
    /// `now`.
    pub fn accepts_tick(&self, now: u64) -> (r: bool)
        ensures
            r == self@.accepts_tick(now),
    {
        self.prev_time_paused <= TIME_LIMIT && now <= TIME_LIMIT && self.rng.is_valid()
            && self.is_bounded_by(TICK_LIMIT)
    }

    /// Whether [`GameState::fade_blocks`] may be called when the clock
    /// reads `now`.
    pub fn accepts_fade(&self, now: u64) -> (r: bool)
        ensures
            r == self@.accepts_fade(now),
    {
        if now > TIME_LIMIT {
            return false;
        }
        let mut i: usize = 0;
        while i < self.blocks.len()
            invariant
                i <= self.blocks.len(),
                forall|j: int| 0 <= j < i ==> (#[trigger] self.blocks@[j]).accounts_bounded(),
            decreases self.blocks.len() - i,
        {
            if !self.blocks[i].has_accounts_bounded() {
                assert(!self@.blocks[i as int].accounts_bounded());
                return false;
            }
            i = i + 1;
        }
        true
    }

    /// Whole seconds of play left when the clock reads `now`.
    pub fn time_left_at(&self, now: u64) -> (left: i64)
        ensures
            left == self@.time_left_at(now),
    {
        let gone: u64 = elapsed_ms(self.start_time, now);
        let pause: u64 = match self.pause_time {
            Some(since) => elapsed_ms(since, now),
            None => 0,
        };
        let paused: u128 = self.prev_time_paused as u128 + pause as u128;
        let played: u64 = if gone as u128 >= paused {
            (gone as u128 - paused) as u64
        } else {
            0
        };
        ROUND_SECONDS - ((played / 1000) as i64)
    }

    /// Steers the paddle where the arrow keys ask.
    pub fn set_direction(&mut self, left: bool, right: bool)
        ensures
            final(self)@ == old(self)@.steered(left, right),
    {
        self.palette.dir = Direction::from_keys(left, right);
    }

    /// Takes the broken blocks off the field. The others stay in their
    /// order.
    pub fn update_blocks(&mut self)
        ensures
            final(self)@ == old(self)@.pruned(),
    {
        let mut kept: Vec<Block> = Vec::new();
        let mut i: usize = 0;
        proof {
            reveal(Seq::filter);
            assert(self.blocks@.take(0) =~= Seq::<Block>::empty());
        }
        while i < self.blocks.len()
            invariant
                i <= self.blocks.len(),
                kept@ == self.blocks@.take(i as int).filter(standing()),
            decreases self.blocks.len() - i,
        {
            let block: Block = self.blocks[i];
            proof {
                reveal(Seq::filter);
                assert(self.blocks@.take(i + 1).drop_last() =~= self.blocks@.take(i as int));
            }
            if !block.broken {
                kept.push(block);
            }
            i = i + 1;
        }
        proof {
            assert(self.blocks@.take(i as int) =~= self.blocks@);
        }
        self.blocks = kept;
    }

    /// Lets the paddle, the walls and the blocks deflect the ball when the
    /// clock reads `now`. Each block struck breaks and scores its value.
    pub fn set_ball_direction(&mut self, now: u64)
        requires
            old(self)@.bounded_by(LIMIT),
        ensures
            final(self)@ == old(self)@.deflected(now),
    {
        self.ball.bounce(self.palette.pos);
        let pos: GridPosition = self.ball.pos;
        let offsets: Vector = self.ball.offsets;
        let ghost bounced = self@;
        let mut i: usize = 0;
        proof {
            assert(bounced.blocks.take(0) =~= Seq::<Block>::empty());
        }
        while i < self.blocks.len()
            invariant
                i <= self.blocks.len(),
                bounced.blocks.len() == self.blocks.len(),
                bounced.blocks.len() <= LIMIT,
                bounced.blocks_bounded_by(LIMIT),
                pos.bounded(),
                within(bounced.score, LIMIT),
                -6 * LIMIT <= bounced.ball.speed.x <= 6 * LIMIT,
                within(bounced.ball.speed.y, LIMIT),
                forall|j: int| 0 <= j < i ==> self.blocks@[j] == struck(pos, bounced.blocks, now)[j],
                forall|j: int| i <= j < self.blocks.len() ==> self.blocks@[j] == bounced.blocks[j],
                self.ball.speed.x == reflected(
                    bounced.ball.speed.x as int,
                    x_turns(pos, offsets, bounced.blocks.take(i as int), now),
                ),
                self.ball.speed.y == reflected(
                    bounced.ball.speed.y as int,
                    y_turns(pos, offsets, bounced.blocks.take(i as int), now),
                ),
                self.score == bounced.score + points(pos, bounced.blocks.take(i as int), now),
                0 <= points(pos, bounced.blocks.take(i as int), now) <= 10 * i,
                self@ == (GameModel {
                    ball: Ball { speed: self.ball.speed, ..bounced.ball },
                    blocks: self.blocks@,
                    score: self.score,
                    ..bounced
                }),
            decreases self.blocks.len() - i,
        {
            let block: Block = self.blocks[i];
            proof {
                assert(bounced.blocks.take(i + 1).drop_last() =~= bounced.blocks.take(i as int));
                assert(bounced.blocks.take(i + 1).last() == block);
            }
            match strike(pos, offsets, &block, now) {
                Some(turn_x) => {
                    if turn_x {
                        self.ball.speed.x = -self.ball.speed.x;
                    } else {
                        self.ball.speed.y = -self.ball.speed.y;
                    }
                    let mut broken: Block = block;
                    broken.broken = true;
                    self.blocks.set(i, broken);
                    self.score = self.score + block.block_type.value();
                },
                None => {},
            }
            i = i + 1;
        }
        proof {
            assert(bounced.blocks.take(i as int) =~= bounced.blocks);
            assert(self.blocks@ =~= struck(pos, bounced.blocks, now));
        }
    }

    /// Lets a new block appear when the clock reads `now`, if more than a
    /// second has gone by since the last one. The block fills a cell of
    /// the upper part of the field, well above the paddle. Where a block is
    /// due the generator must be valid; its increment stays as it is.
    pub fn add_block(&mut self, now: u64)
        requires
            old(self)@.spawn_due(now) ==> old(self).rng.valid(),
        ensures
            final(self)@ == old(self)@.spawned(now),
            old(self)@.spawn_due(now) ==> GameModel::in_spawn_area(old(self)@.next_block(now).pos),
            old(self)@.blocks_in_spawn_area() ==> final(self)@.blocks_in_spawn_area(),
            final(self).rng.inc == old(self).rng.inc,
    {
        if elapsed_ms(self.last_block_add_time, now) > SPAWN_INTERVAL_MS {
            let pos: GridPosition = GridPosition::random(
                &mut self.rng,
                SPAWN_MIN_COLUMN,
                SPAWN_END_COLUMN,
                SPAWN_MIN_ROW,
                SPAWN_END_ROW,
            );
            let block_type: BlockType = random_block_type(&mut self.rng);
            self.blocks.push(Block::new(pos, block_type, now));
            self.last_block_add_time = now;
        }
    }

    /// Deals with a ball that got past the paddle: it is put back where it
    /// is served from, with the velocity of a serve, the penalty is taken
    /// off the score and the game waits paused. Nothing happens while the
    /// ball is on the field.
    pub fn check_restart(&mut self)
        requires
            old(self)@.missed() ==> old(self).score - MISS_PENALTY >= i64::MIN,
        ensures
            final(self)@ == old(self)@.restarted(),
            old(self)@.missed() ==> {
                &&& final(self).ball.pos == serve_position()
                &&& final(self).ball.speed == (Vector { x: SERVE_SPEED_X, y: SERVE_SPEED_Y })
                &&& final(self).score == old(self).score - MISS_PENALTY
                &&& final(self).paused
            },
            !old(self)@.missed() ==> final(self)@ == old(self)@,
    {
        if self.ball.pos.y > GRID_HEIGHT {
            self.ball.pos = GridPosition { x: MIDDLE_X, y: SERVE_Y };
            self.ball.speed = Vector { x: SERVE_SPEED_X, y: SERVE_SPEED_Y };
            self.score = self.score - MISS_PENALTY;
            self.paused = true;
        }
    }

    /// Lets every block look at the clock before the field is drawn. Hands
    /// back, block by block, the milliseconds that the block has left, or
    /// `None` for a block that is broken and is not to be drawn.
    pub fn fade_blocks(&mut self, now: u64) -> (left: Vec<Option<u64>>)
        requires
            old(self)@.accepts_fade(now),
        ensures
            final(self)@ == old(self)@.faded(now),
            old(self)@.well_formed() ==> final(self)@.well_formed(),
            left@.len() == final(self).blocks@.len(),
            forall|i: int|
                0 <= i < left@.len() ==> #[trigger] left@[i] == if final(self).blocks@[i].broken {
                    None
                } else {
                    Some(final(self).blocks@[i].remaining(now) as u64)
                },
    {
        let ghost before = self@;
        let mut left: Vec<Option<u64>> = Vec::new();
        let mut i: usize = 0;
        while i < self.blocks.len()
            invariant
                i <= self.blocks.len(),
                before.blocks.len() == self.blocks.len(),
                before.accepts_fade(now),
                left@.len() == i,
                forall|j: int|
                    0 <= j < i ==> self.blocks@[j] == before.blocks[j].faded(before.paused, now),
                forall|j: int| i <= j < self.blocks.len() ==> self.blocks@[j] == before.blocks[j],
                forall|j: int|
                    0 <= j < i ==> #[trigger] left@[j] == if self.blocks@[j].broken {
                        None::<u64>
                    } else {
                        Some(self.blocks@[j].remaining(now) as u64)
                    },
                self@ == (GameModel { blocks: self.blocks@, ..before }),
            decreases self.blocks.len() - i,
        {
            let mut block: Block = self.blocks[i];
            let ms: Option<u64> = block.fade(self.paused, now);
            self.blocks.set(i, block);
            left.push(ms);
            i = i + 1;
        }
        proof {
            assert(self.blocks@ =~= before.faded(now).blocks);
        }
        left
    }

    /// Advances the round by the tick that `input` describes and tells the
    /// host whether to go on. When no time is left the round is over: the
    /// state keeps everything but the time left, and the outcome carries
    /// the score. Otherwise the keys steer the paddle and may turn the
    /// pause on or off, and unless the game is paused, paddle and ball
    /// move, the ball is deflected, a block may appear and a miss is dealt
    /// with.
    pub fn update(&mut self, input: Input) -> (outcome: Outcome)
        requires
            old(self)@.accepts_tick(input.now),
        ensures
            final(self)@ == old(self)@.ticked(input),
            outcome == old(self)@.outcome(input),
            old(self)@.blocks_in_spawn_area() ==> final(self)@.blocks_in_spawn_area(),
            old(self)@.well_formed() ==> final(self)@.well_formed(),
    {
        let now: u64 = input.now;
        self.time_left = self.time_left_at(now);
        if self.time_left <= 0 {
            return Outcome::RoundOver { score: self.score };
        }
        self.set_direction(input.left, input.right);
        let released: bool = self.p_pressed && !input.pause;
        self.p_pressed = input.pause;
        if released {
            self.paused = !self.paused;
        }
        if self.paused {
            if self.pause_time.is_none() {
                self.pause_time = Some(now);
            }
        } else {
            if let Some(since) = self.pause_time {
                self.prev_time_paused = self.prev_time_paused + elapsed_ms(since, now);
                self.pause_time = None;
            }
        }
        if self.paused {
            match self.palette.dir {
                Direction::Idle => {},
                _ => {
                    self.paused = false;
                },
            }
        }
        if !self.paused {
            self.palette.update();
            self.ball.update();
            self.update_blocks();
            proof {
                // The blocks that stay are among those that were there.
                let kept = self@.blocks;
                old(self)@.blocks.lemma_filter_len(standing());
                assert forall|i: int| 0 <= i < kept.len() implies {
                    &&& (#[trigger] kept[i]).pos.bounded_by(LIMIT)
                    &&& old(self)@.blocks_in_spawn_area() ==> GameModel::in_spawn_area(kept[i].pos)
                } by {
                    old(self)@.blocks.lemma_filter_contains_rev(standing(), kept[i]);
                }
            }
            self.set_ball_direction(now);
            self.add_block(now);
            proof {
                lemma_points_bounds(
                    old(self)@.ball.moved().bounced(old(self)@.palette.moved().pos).pos,
                    old(self)@.blocks.filter(standing()),
                    now,
                );
            }
            self.check_restart();
        }
        proof {
            if old(self)@.well_formed() {
                lemma_tick_keeps_ball_in_play(old(self)@, input);
            }
        }
        Outcome::Continue
    }

    /// [`GameState::update`] for a host that cannot promise small numbers:
    /// the tick is played if state and clock are accepted, else nothing
    /// happens and the answer is `None`.
    pub fn try_update(&mut self, input: Input) -> (outcome: Option<Outcome>)
        ensures
            old(self)@.accepts_tick(input.now) ==> {
                &&& final(self)@ == old(self)@.ticked(input)
                &&& outcome == Some(old(self)@.outcome(input))
            },
            !old(self)@.accepts_tick(input.now) ==> {
                &&& final(self)@ == old(self)@
                &&& outcome is None
            },
            old(self)@.blocks_in_spawn_area() ==> final(self)@.blocks_in_spawn_area(),
            old(self)@.well_formed() ==> final(self)@.well_formed(),
    {
        if self.accepts_tick(input.now) {
            Some(self.update(input))
        } else {
            None
        }
    }

    /// [`GameState::fade_blocks`] for a host that cannot promise small
    /// numbers: the blocks look at the clock if their accounts and the
    /// clock are accepted, else nothing happens and the answer is `None`.
    pub fn try_fade_blocks(&mut self, now: u64) -> (left: Option<Vec<Option<u64>>>)
        ensures
            old(self)@.well_formed() ==> final(self)@.well_formed(),
            old(self)@.accepts_fade(now) ==> {
                &&& final(self)@ == old(self)@.faded(now)
                &&& left matches Some(ms)
                &&& ms@.len() == final(self).blocks@.len()
                &&& forall|i: int|
                    0 <= i < ms@.len() ==> #[trigger] ms@[i] == if final(self).blocks@[i].broken {
                        None
                    } else {
                        Some(final(self).blocks@[i].remaining(now) as u64)
                    }
            },
            !old(self)@.accepts_fade(now) ==> {
                &&& final(self)@ == old(self)@
                &&& left is None
            },
    {
        if self.accepts_fade(now) {
            Some(self.fade_blocks(now))
        } else {
            None
        }
    }
}

} // verus!
