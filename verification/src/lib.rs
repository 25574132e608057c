//! A grid-based snake simulation engine.
//!
//! A player-controlled segmented snake moves across a bounded arena,
//! consumes spawned food to grow and score, and the run ends on
//! self-collision or wall-collision.  The crate holds the simulation
//! alone: snake movement and growth, collision detection, the food
//! lifecycle, and the running/game-over state machine.  Rendering and
//! input polling stay outside.

#![allow(unused_imports)]
use vstd::prelude::*;

pub mod food;
pub mod game;
pub mod grid;
pub mod playground;
pub mod rng;
pub mod snake;

verus! {

/// A configuration fault: the game cannot run as requested.
#[derive(Clone, Copy, PartialEq, Eq, Structural, Debug)]
pub enum ConfigError {
    /// The arena dimensions leave no playable interior.
    DegenerateArena,
    /// The snake's starting cells do not lie inside the playable interior.
    SnakePlacement,
    /// No free interior cell is left for a food spawn.
    ArenaFull,
}

} // verus!
