//! The rules of a small flappy-bird game: the screen state machine, the bird's
//! flight and wing animation, and the scrolling world of bases and pipes.
//!
//! Positions are fixed-point: see `units`.
pub mod units;
pub mod state;
pub mod bird;
pub mod world;
pub mod classic;
mod rng;
