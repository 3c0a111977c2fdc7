//! Simulation core of a block-breaking arcade game.
//!
//! A ball bounces inside a grid of 30 by 20 cells, a paddle near the bottom
//! deflects it, and blocks that fade with time appear in the upper part of
//! the field and score points when the ball strikes them.
//!
//! The crate holds the rules only. It reads no clock, no keyboard and draws
//! nothing: the host samples the keys and a monotonic clock once per tick,
//! hands both to [`game::GameState::update`], and draws what the state and
//! the functions of [`render`] describe.
//!
//! All quantities are integers. Positions count tenths of a grid cell,
//! velocities tenths of a pixel per tick, sub-cell offsets whole pixels and
//! times milliseconds.

pub mod ball;
pub mod block;
pub mod clock;
pub mod collision;
pub mod game;
pub mod grid;
pub mod laws;
pub mod palette;
pub mod render;
pub mod rng;
