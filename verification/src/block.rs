//! Blocks: targets that fade with time and score when the ball hits them.
//!
//! A block lives for the duration of its type, counted from its creation
//! and not counting the time that the game was paused. Each block keeps
//! its own account of the pauses it has seen, which is brought up to date
//! whenever the block is about to be drawn.

use crate::clock::{elapsed, elapsed_ms, TIME_LIMIT};
use crate::grid::GridPosition;
use crate::rng::{draw_u32, Rng};
use vstd::prelude::*;

verus! {

/// A draw for the type of a block is one of this many equally likely
/// samples.
pub const SAMPLES: u32 = 0x0100_0000;

/// Samples below this one give a red block: the first tenth of them.
pub const RED_BELOW: u32 = 1_677_722;

/// Samples below this one, and not below [`RED_BELOW`], give a blue block:
/// the next three tenths of them.
pub const BLUE_BELOW: u32 = 6_710_887;

/// A block younger than this many milliseconds cannot be hit.
pub const GRACE_MS: u64 = 100;

/// An opaque colour.
#[derive(Clone, Copy, Debug, PartialEq, Eq, Structural)]
pub struct Color {
    pub r: u8,
    pub g: u8,
    pub b: u8,
}

/// The three types of block.
#[derive(Clone, Copy, Debug, PartialEq, Eq, Structural)]
pub enum BlockType {
    Red,
    Blue,
    Green,
}

impl BlockType {
    /// Colour of a block of this type.
    pub open spec fn spec_color(self) -> Color {
        match self {
            BlockType::Red => Color { r: 255, g: 0, b: 0 },
            BlockType::Blue => Color { r: 0, g: 0, b: 255 },
            BlockType::Green => Color { r: 0, g: 255, b: 0 },
        }
    }

    /// Lifetime of a block of this type, in milliseconds.
    pub open spec fn spec_duration(self) -> u64 {
        match self {
            BlockType::Red => 5000,
            BlockType::Blue => 10000,
            BlockType::Green => 15000,
        }
    }

    /// Points for hitting a block of this type.
    pub open spec fn spec_value(self) -> i64 {
        match self {
            BlockType::Red => 10,
            BlockType::Blue => 5,
            BlockType::Green => 3,
        }
    }

    /// The sample that a 32-bit draw stands for: its upper 24 bits.
    pub open spec fn sample(draw: u32) -> u32 {
        draw / 256
    }

    /// The type that a 32-bit draw selects: the first tenth of the samples
    /// is red, the next three tenths are blue and the rest is green.
    pub open spec fn of_draw(draw: u32) -> BlockType {
        if BlockType::sample(draw) < RED_BELOW {
            BlockType::Red
        } else if BlockType::sample(draw) < BLUE_BELOW {
            BlockType::Blue
        } else {
            BlockType::Green
        }
    }

    /// Colour of a block of this type.
    #[verifier::when_used_as_spec(spec_color)]
    pub fn color(self) -> (c: Color)
        ensures
            c == self.spec_color(),
    {
        match self {
            BlockType::Red => Color { r: 255, g: 0, b: 0 },
            BlockType::Blue => Color { r: 0, g: 0, b: 255 },
            BlockType::Green => Color { r: 0, g: 255, b: 0 },
        }
    }

    /// Lifetime of a block of this type, in milliseconds.
    #[verifier::when_used_as_spec(spec_duration)]
    pub fn duration(self) -> (d: u64)
        ensures
            d == self.spec_duration(),
    {
        match self {
            BlockType::Red => 5000,
            BlockType::Blue => 10000,
            BlockType::Green => 15000,
        }
    }

    /// Points for hitting a block of this type.
    #[verifier::when_used_as_spec(spec_value)]
    pub fn value(self) -> (v: i64)
        ensures
            v == self.spec_value(),
    {
        match self {
            BlockType::Red => 10,
            BlockType::Blue => 5,
            BlockType::Green => 3,
        }
    }

    /// Selects the type for a 32-bit draw.
    pub fn from_draw(draw: u32) -> (t: BlockType)
        ensures
            t == BlockType::of_draw(draw),
    {
        let sample: u32 = draw / 256;
        if sample < RED_BELOW {
            BlockType::Red
        } else if sample < BLUE_BELOW {
            BlockType::Blue
        } else {
            BlockType::Green
        }
    }
}

/// Draws the type of a new block: red one time in ten, blue three times in
/// ten, green otherwise.
pub fn random_block_type(rng: &mut Rng) -> (t: BlockType)
    ensures
        t == BlockType::of_draw(old(rng).peek_u32()),
        *final(rng) == old(rng).after_u32(),
{
    let draw: u32 = draw_u32(rng);
    BlockType::from_draw(draw)
}

/// A block.
#[derive(Clone, Copy, Debug, PartialEq, Eq)]
pub struct Block {
    /// Corner of the cell that the block fills.
    pub pos: GridPosition,
    /// Clock reading when the block appeared.
    pub creation_time: u64,
    pub block_type: BlockType,
    /// Struck by the ball or faded out: the block leaves the field at the
    /// next tick.
    pub broken: bool,
    /// Clock reading when the block first saw the pause that is going on.
    pub pause_time: Option<u64>,
    /// Milliseconds paused during the pauses that have ended.
    pub prev_time_paused: u64,
    /// Milliseconds paused so far during the pause that is going on.
    pub current_time_paused: u64,
}

impl Block {
    /// The two pause accounts lie within [`TIME_LIMIT`].
    pub open spec fn accounts_bounded(self) -> bool {
        self.prev_time_paused <= TIME_LIMIT && self.current_time_paused <= TIME_LIMIT
    }

    /// Computes [`Block::accounts_bounded`].
    pub fn has_accounts_bounded(&self) -> (r: bool)
        ensures
            r == self.accounts_bounded(),
    {
        self.prev_time_paused <= TIME_LIMIT && self.current_time_paused <= TIME_LIMIT
    }

    /// A block that appears at `pos` when the clock reads `now`.
    pub open spec fn created(pos: GridPosition, block_type: BlockType, now: u64) -> Block {
        Block {
            pos,
            creation_time: now,
            block_type,
            broken: false,
            pause_time: None,
            prev_time_paused: 0,
            current_time_paused: 0,
        }
    }

    /// Milliseconds since the block appeared.
    pub open spec fn age(self, now: u64) -> u64 {
        elapsed(self.creation_time, now)
    }

    /// Milliseconds that the block has spent paused, by its own account.
    pub open spec fn time_paused(self) -> int {
        self.prev_time_paused + self.current_time_paused
    }

    /// Milliseconds that the block has left when the clock reads `now`:
    /// its duration, less its age, not counting the time paused. Zero or
    /// less when the block has faded out.
    pub open spec fn remaining(self, now: u64) -> int {
        self.block_type.spec_duration() + self.time_paused() - self.age(now)
    }

    /// The block with its pause account brought up to `now`. While the
    /// game is paused the pause that is going on grows; when it is not,
    /// that pause is closed and added to the pauses that have ended.
    pub open spec fn accounted(self, paused: bool, now: u64) -> Block {
        if paused {
            let since = match self.pause_time {
                Some(t) => t,
                None => now,
            };
            Block { pause_time: Some(since), current_time_paused: elapsed(since, now), ..self }
        } else {
            Block {
                pause_time: None,
                prev_time_paused: self.time_paused() as u64,
                current_time_paused: 0,
                ..self
            }
        }
    }

    /// The block after a look at the clock: its pause account is brought
    /// up to date, and it breaks when it has no time left. A broken block
    /// does not change any more.
    pub open spec fn faded(self, paused: bool, now: u64) -> Block {
        if self.broken {
            self
        } else if self.accounted(paused, now).remaining(now) <= 0 {
            Block { broken: true, ..self.accounted(paused, now) }
        } else {
            self.accounted(paused, now)
        }
    }

    /// A new block at `pos`, appearing when the clock reads `now`.
    pub fn new(pos: GridPosition, block_type: BlockType, now: u64) -> (block: Block)
        ensures
            block == Block::created(pos, block_type, now),
    {
        Block {
            pos,
            creation_time: now,
            block_type,
            broken: false,
            pause_time: None,
            prev_time_paused: 0,
            current_time_paused: 0,
        }
    }

    /// Looks at the clock before the block is drawn. Returns the
    /// milliseconds that the block has left, out of the duration of its
    /// type, or `None` when the block is broken and is not to be drawn.
    pub fn fade(&mut self, paused: bool, now: u64) -> (left: Option<u64>)
        requires
            old(self).accounts_bounded(),
            now <= TIME_LIMIT,
        ensures
            *final(self) == old(self).faded(paused, now),
            final(self).broken ==> left is None,
            !final(self).broken ==> left == Some(final(self).remaining(now) as u64),
            left matches Some(ms) ==> ms > 0,
    {
        if self.broken {
            return None;
        }
        if paused {
            let since: u64 = match self.pause_time {
                Some(t) => t,
                None => now,
            };
            self.pause_time = Some(since);
            self.current_time_paused = elapsed_ms(since, now);
        } else {
            self.pause_time = None;
            self.prev_time_paused = self.prev_time_paused + self.current_time_paused;
            self.current_time_paused = 0;
        }
        let credit: u64 = self.block_type.duration() + self.prev_time_paused
            + self.current_time_paused;
        let age: u64 = elapsed_ms(self.creation_time, now);
        if credit <= age {
            self.broken = true;
            None
        } else {
            Some(credit - age)
        }
    }
}

} // verus!
