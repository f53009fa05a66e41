//! Deterministic core of a ring-climbing arcade game.
//!
//! The player orbits concentric rings and must time an outward jump so that
//! it lands inside a gap on the next ring out.  Every ring attribute (angular
//! speed, gap size, gap count) is a pure function of the ring index, a
//! sub-ring index and a seed, derived from an integer avalanche hash, so the
//! whole world is reproducible with no stored state.
//!
//! All angular phases, timers and the game clock are held in fixed-point
//! micro-units: the value `UNIT` stands for one full revolution, one second,
//! or a full timer, so a phase is always an integer in `[0, UNIT)`.  This
//! keeps every quantity a plain integer and makes the simulation exactly
//! deterministic across runs and platforms.

use vstd::prelude::*;

pub mod cue;
pub mod laws;
pub mod noise;
pub mod phase;
pub mod player;
pub mod ring_field;

verus! {

/// One full revolution, one full second, or a full (saturated) timer,
/// in micro-units.  All phases lie in `[0, UNIT)`.
pub const UNIT: u64 = 1_000_000;

/// The ring the player starts on (and returns to after a restart); not 0,
/// so early misses are survivable.
pub const STARTING_LEVEL: u32 = 10;

/// Game-clock rate while alive: the clock gains `GAME_SPEED_MICRO` of a
/// micro-second for every micro-second of wall time (0.08 x real time).
pub const GAME_SPEED_MICRO: u64 = 80_000;

/// Reduced game-clock rate once the player is dead: a grace "settle" rate
/// (0.3 x the live rate) rather than an instant stop.
pub const DEAD_SPEED_MICRO: u64 = 24_000;

/// The landing animation timer counts from 0 to `UNIT` at 16 units per
/// second, i.e. 16 micro-units per micro-second of wall time.
pub const STEP_ANIM_RATE: u64 = 16;

/// The jump cooldown timer counts from 0 to `UNIT` at 1 unit per second.
pub const COOLDOWN_RATE: u64 = 1;

/// Death deadline constant: the player dies when
/// `clock * DEATH_FACTOR > (ring + 1) * UNIT`, i.e. when the game clock
/// overtakes the per-ring pace the ring field demands.
pub const DEATH_FACTOR: u64 = 7;

/// The fixed hash seed used for every ring-field call in normal play.  The
/// seed stays in the ring-field signatures so a variant world could use
/// another one.
pub const RING_SEED: u32 = 0;

} // verus!
