//! Tuning constants of the game, in fixed-point units.

use vstd::prelude::*;

verus! {

/// One world unit (one pixel of the arena) in fixed-point thousandths.
pub const UNIT: i64 = 1_000;

/// One second in nanoseconds.
pub const NANOS_PER_SEC: u64 = 1_000_000_000;

/// Lives a ship starts with.
pub const START_LIFE: u32 = 3;

/// Length of one invincibility window, in nanoseconds.
pub const INVINCIBLE_TIME: u64 = 2_000_000_000;

/// Longest total invincibility that re-arming may add up to, in nanoseconds.
pub const MAX_INVINCIBLE_TIME: u64 = 5_000_000_000;

/// Arena width in thousandths of a unit.
pub const ARENA_WIDTH: i64 = 1_280_000;

/// Arena height in thousandths of a unit.
pub const ARENA_HEIGHT: i64 = 800_000;

/// Most asteroids the spawner lets the arena hold.
pub const MAX_ASTEROID_COUNT: usize = 20;

/// Most guardians the spawner lets the arena hold.
pub const MAX_GUARDIAN_COUNT: usize = 4;

/// First period of the asteroid spawn timer, in nanoseconds.
pub const ASTEROID_SPAWN_PERIOD: u64 = 5_000_000_000;

/// First period of the guardian spawn timer, in nanoseconds.
pub const GUARDIAN_SPAWN_PERIOD: u64 = 8_000_000_000;

/// Shortest period a spawn timer shrinks to, in nanoseconds.
pub const MIN_SPAWN_PERIOD: u64 = 100_000_000;

/// Bound on the spin of a spawned asteroid, in thousandths of a radian per second.
pub const ASTEROID_SPIN: i64 = 10_000;

/// Bound on the spin of a spawned guardian, in thousandths of a radian per second.
pub const GUARDIAN_SPIN: i64 = 8_000;

pub const ASTEROID_SCORE_HIT_POINTS_SMALL: u32 = 40;

pub const ASTEROID_SCORE_HIT_POINTS_MEDIUM: u32 = 20;

pub const ASTEROID_SCORE_HIT_POINTS_BIG: u32 = 10;

pub const GUARDIAN_SCORE_HIT_POINTS_SMALL: u32 = 40;

pub const GUARDIAN_SCORE_HIT_POINTS_MEDIUM: u32 = 20;

pub const GUARDIAN_SCORE_HIT_POINTS_BIG: u32 = 10;

} // verus!
