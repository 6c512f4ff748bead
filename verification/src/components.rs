//! Plain data attached to the entities of the game.

use crate::clock::{countdown, is_countdown};
use bevy::time::Timer;
use vstd::prelude::*;

verus! {

/// Tags an entity as needed only in some of the states.
#[derive(Debug)]
pub struct ForState<T> {
    pub states: Vec<T>,
}

/// The ship used by a player. Speeds are in thousandths of a unit, times in
/// nanoseconds.
pub struct Ship {
    /// Rotation speed, in thousandths of a radian per second.
    pub rotation_speed: i64,
    /// Thrust, in thousandths of a newton.
    pub thrust: i64,
    /// Lives left.
    pub life: u32,
    /// Cannon auto-fire timer.
    pub cannon_timer: Timer,
    /// Id of the controlling player, 1 or 2.
    pub player_id: u32,
    /// Runs while the ship is invincible after a hit.
    pub invincible_timer: Timer,
    /// Invincibility already used up by windows that were cut short by a
    /// re-arming contact, in nanoseconds.
    pub invincible_time: u64,
}

impl Ship {
    /// Both timers of the ship are running one-shot countdowns.
    pub open spec fn wf(&self) -> bool {
        &&& countdown(self.cannon_timer)
        &&& countdown(self.invincible_timer)
    }

    /// Tells whether the ship is well-formed.
    pub fn is_wf(&self) -> (ok: bool)
        ensures
            ok == self.wf(),
    {
        is_countdown(&self.cannon_timer) && is_countdown(&self.invincible_timer)
    }
}

/// Damage that touching a body does to the player ship.
#[derive(Clone, Copy, Debug, PartialEq, Eq, Structural)]
pub struct Damage {
    pub value: u32,
}

/// A running explosion: its lifetime and the scales, in thousandths, that it
/// grows between.
pub struct Explosion {
    pub timer: Timer,
    pub start_scale: i64,
    pub end_scale: i64,
}

/// Marks the score display.
pub struct UiScore {}

/// Marks one life counter: shown while the ship has at least `min` lives.
#[derive(Clone, Copy, Debug, PartialEq, Eq, Structural)]
pub struct UiLife {
    pub min: u32,
}

} // verus!
