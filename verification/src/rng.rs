//! The pseudo-random source: a 32-bit permuted congruential generator.
//!
//! The generator itself is `oorandom::Rand32`. The game keeps its saved
//! state as two plain words, so that a game state can be copied, compared
//! and written down, and rebuilds the generator around each draw.
//!
//! The first word is the state proper, which every draw advances by one
//! step of a linear congruential generator; the second is the increment of
//! that step, which never changes. The increment must be odd: the steps
//! then run through all values of the state before they repeat (the
//! theorem of Hull and Dobell, for a modulus of 2^64 and a multiplier that
//! leaves 1 when divided by 4), and with them through all the numbers that
//! a draw can give. A draw from a range relies on that: it draws again and
//! again until a number suits it.

use oorandom::Rand32;
use vstd::prelude::*;

verus! {

/// The multiplier of a step.
pub const MULTIPLIER: u64 = 6364136223846793005;

/// The increment of a generator that a seed starts.
pub const SEEDED_INC: u64 = 2885390081777926815;

/// Saved state of the generator, as `Rand32::state` reports it.
#[derive(Clone, Copy, Debug, PartialEq, Eq)]
pub struct Rng {
    pub state: u64,
    pub inc: u64,
}

/// The state one step after `state`: multiplied, incremented, and cut to
/// 64 bits.
pub open spec fn stepped(state: u64, inc: u64) -> u64 {
    ((state * MULTIPLIER + inc) % 0x1_0000_0000_0000_0000) as u64
}

/// The number that `Rand32::rand_u32` returns from the generator saved as
/// `(state, inc)`.
pub uninterp spec fn rand32_u32(state: u64, inc: u64) -> u32;

/// What `Rand32::rand_range(lo..hi)` does to the generator saved as
/// `(state, inc)`: the number drawn, and the state afterwards, which lies
/// as many steps on as the draw took numbers.
pub uninterp spec fn rand32_range(state: u64, inc: u64, lo: u32, hi: u32) -> (u32, u64);

/// Calls `Rand32::new` and saves the state of the new generator. Trusted:
/// the outside function sets the increment to [`SEEDED_INC`], which is
/// twice its default increment plus one, takes one step from state 0, adds
/// the seed and takes one step more.
#[verifier::external_body]
fn seeded_state(seed: u64) -> (r: (u64, u64))
    ensures
        r.0 == stepped(((SEEDED_INC + seed) % 0x1_0000_0000_0000_0000) as u64, SEEDED_INC),
        r.1 == SEEDED_INC,
{
    Rand32::new(seed).state()
}

/// Calls `Rand32::rand_u32` on the generator that `rng` saves and saves it
/// again. Trusted: the outside function takes one step and leaves the
/// increment alone; the number it returns is a function of the state
/// before, named [`rand32_u32`], of which nothing more is claimed.
#[verifier::external_body]
pub(crate) fn draw_u32(rng: &mut Rng) -> (r: u32)
    ensures
        r == rand32_u32(old(rng).state, old(rng).inc),
        final(rng).state == stepped(old(rng).state, old(rng).inc),
        final(rng).inc == old(rng).inc,
{
    let mut generator = Rand32::from_state((rng.state, rng.inc));
    let r: u32 = generator.rand_u32();
    let (state, inc) = generator.state();
    rng.state = state;
    rng.inc = inc;
    r
}

/// Calls `Rand32::rand_range(lo..hi)` on the generator that `rng` saves and
/// saves it again.
///
/// Two kinds of input are left out. An empty or reversed range: the outside
/// function asserts `lo < hi` before it subtracts the bounds. And an even
/// increment: the outside function draws 32-bit numbers until one suits
/// the width of the range, and a generator with an even increment may give
/// the same unsuitable number for ever (from state 0 with increment 0 it
/// gives nothing but 0). With an odd increment a suitable number comes up:
/// the generator then runs through all its states, as the head of this
/// file says, and so through all 32-bit numbers. The outside crate's
/// source does not state that; it is a property of the generator it
/// implements.
///
/// Trusted: number and next state are a function of the state before and
/// the bounds, named [`rand32_range`]; the increment is left alone; and the
/// number lies in `lo..hi`, which the last line of the outside function
/// shows (the high word of the product of a 32-bit number with `hi - lo`,
/// plus `lo`).
#[verifier::external_body]
pub(crate) fn draw_range(rng: &mut Rng, lo: u32, hi: u32) -> (r: u32)
    requires
        lo < hi,
        old(rng).inc % 2 == 1,
    ensures
        r == rand32_range(old(rng).state, old(rng).inc, lo, hi).0,
        final(rng).state == rand32_range(old(rng).state, old(rng).inc, lo, hi).1,
        final(rng).inc == old(rng).inc,
        lo <= r < hi,
{
    let mut generator = Rand32::from_state((rng.state, rng.inc));
    let r: u32 = generator.rand_range(lo..hi);
    let (state, inc) = generator.state();
    rng.state = state;
    rng.inc = inc;
    r
}

/// Asks `getrandom::getrandom` for eight bytes from the operating system
/// and reads them as one word in the byte order of the machine. `None`
/// when the system has no randomness to give. Trusted, with nothing
/// claimed: the word is different every time.
#[verifier::external_body]
pub(crate) fn entropy_seed() -> (seed: Option<u64>) {
    let mut bytes: [u8; 8] = [0; 8];
    match getrandom::getrandom(&mut bytes[..]) {
        Ok(()) => Some(u64::from_ne_bytes(bytes)),
        Err(_) => None,
    }
}

impl Rng {
    /// The increment is odd, as every draw from a range needs it.
    pub open spec fn valid(self) -> bool {
        self.inc % 2 == 1
    }

    /// Computes [`Rng::valid`].
    pub fn is_valid(&self) -> (r: bool)
        ensures
            r == self.valid(),
    {
        self.inc % 2 == 1
    }

    /// The generator after one draw of a 32-bit number: one step on.
    pub open spec fn after_u32(self) -> Rng {
        Rng { state: stepped(self.state, self.inc), inc: self.inc }
    }

    /// The 32-bit number that the next draw gives.
    pub open spec fn peek_u32(self) -> u32 {
        rand32_u32(self.state, self.inc)
    }

    /// The generator after one draw from `lo..hi`.
    pub open spec fn after_range(self, lo: u32, hi: u32) -> Rng {
        Rng { state: rand32_range(self.state, self.inc, lo, hi).1, inc: self.inc }
    }

    /// The number that the next draw from `lo..hi` gives.
    pub open spec fn peek_range(self, lo: u32, hi: u32) -> u32 {
        rand32_range(self.state, self.inc, lo, hi).0
    }

    /// The generator that a seed starts: two steps from state 0, with the
    /// seed added between them.
    pub open spec fn seeded(seed: u64) -> Rng {
        Rng {
            state: stepped(((SEEDED_INC + seed) % 0x1_0000_0000_0000_0000) as u64, SEEDED_INC),
            inc: SEEDED_INC,
        }
    }

    /// Starts a generator from a seed.
    pub fn new(seed: u64) -> (rng: Rng)
        ensures
            rng == Rng::seeded(seed),
            rng.valid(),
    {
        let (state, inc): (u64, u64) = seeded_state(seed);
        Rng { state, inc }
    }
}

} // verus!
