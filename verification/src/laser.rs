//! Lasers: how one leaves the ship and when it fades.

use crate::clock;
use crate::clock::{countdown, ticked, timer_duration, timer_elapsed, timer_finished};
use crate::components::ForState;
use crate::config::UNIT;
use crate::state::{AppGameState, AppState};
use bevy::ecs::entity::Entity;
use bevy::time::Timer;
use vstd::prelude::*;

verus! {

/// A laser that is to be removed.
pub struct LaserDespawnEvent(pub Entity);

/// A request to fire a laser. Lengths and speeds are in thousandths of a
/// unit; the heading is the ship's forward direction as a unit vector, in
/// thousandths.
#[derive(Clone, Copy, Debug, PartialEq, Eq, Structural)]
pub struct LaserSpawnEvent {
    /// Position of the ship that fires.
    pub x: i64,
    pub y: i64,
    /// Forward direction of the ship that fires.
    pub heading_x: i64,
    pub heading_y: i64,
    /// Linear velocity of the ship that fires.
    pub vx: i64,
    pub vy: i64,
}

/// Marks a body as a laser and times its life.
pub struct Laser {
    pub despawn_timer: Timer,
}

impl Laser {
    /// The despawn timer is a running one-shot countdown.
    pub open spec fn wf(&self) -> bool {
        countdown(self.despawn_timer)
    }

    /// Tells whether the laser is well-formed.
    pub fn is_wf(&self) -> (ok: bool)
        ensures
            ok == self.wf(),
    {
        clock::is_countdown(&self.despawn_timer)
    }
}

/// Lifetime of a laser, in nanoseconds.
pub const LASER_LIFETIME: u64 = 2_000_000_000;

/// Speed of a laser relative to the ship, in units per second.
pub const LASER_SPEED: i64 = 500;

/// What a new laser is made of: its marker and timer, the state it lives in,
/// the half-extents of its box collider, and where it is and how it moves.
pub struct LaserBundle {
    pub laser: Laser,
    pub for_state: ForState<AppState>,
    pub half_width: i64,
    pub half_height: i64,
    pub x: i64,
    pub y: i64,
    pub z: i64,
    pub vx: i64,
    pub vy: i64,
}

/// The requests whose laser velocity can be computed: the heading is no
/// longer than a unit vector on each axis, and adding the ship's vertical
/// velocity stays in range.
pub open spec fn fireable(event: LaserSpawnEvent) -> bool {
    &&& -UNIT <= event.heading_x <= UNIT
    &&& -UNIT <= event.heading_y <= UNIT
    &&& i64::MIN <= event.vy + event.heading_y * LASER_SPEED <= i64::MAX
}

/// Tells whether the velocity of the laser of a request can be computed.
pub fn is_fireable(event: &LaserSpawnEvent) -> (ok: bool)
    ensures
        ok == fireable(*event),
{
    if -UNIT <= event.heading_x && event.heading_x <= UNIT && -UNIT <= event.heading_y
        && event.heading_y <= UNIT {
        event.vy.checked_add(event.heading_y * LASER_SPEED).is_some()
    } else {
        false
    }
}

/// Answers a fire request: the laser appears at the ship, two layers above
/// the background, lives for two seconds and only in the `Game` state. It
/// flies along the ship's heading at laser speed, and keeps the vertical part
/// of the ship's own velocity.
pub fn spawn_laser(event: &LaserSpawnEvent) -> (bundle: LaserBundle)
    requires
        fireable(*event),
    ensures
        bundle.laser.wf(),
        timer_duration(bundle.laser.despawn_timer) == LASER_LIFETIME,
        timer_elapsed(bundle.laser.despawn_timer) == 0,
        !timer_finished(bundle.laser.despawn_timer),
        bundle.for_state.states@ == seq![AppState::Game],
        bundle.half_width == 2_500,
        bundle.half_height == 10_000,
        bundle.x == event.x,
        bundle.y == event.y,
        bundle.z == 2 * UNIT,
        bundle.vx == event.heading_x * LASER_SPEED,
        bundle.vy == event.vy + event.heading_y * LASER_SPEED,
{
    let mut states: Vec<AppState> = Vec::new();
    states.push(AppState::Game);
    LaserBundle {
        laser: Laser { despawn_timer: clock::once(LASER_LIFETIME) },
        for_state: ForState { states },
        half_width: 2_500,
        half_height: 10_000,
        x: event.x,
        y: event.y,
        z: 2 * UNIT,
        vx: event.heading_x * LASER_SPEED,
        vy: event.vy + event.heading_y * LASER_SPEED,
    }
}

/// One tick of a laser's life. Outside active play nothing happens. In play
/// the despawn timer advances by `delta` nanoseconds, and the laser is to be
/// removed once it has run out.
pub fn laser_timeout_system(laser: &mut Laser, delta: u64, gamestate: AppGameState) -> (despawn:
    bool)
    requires
        old(laser).wf(),
    ensures
        final(laser).wf(),
        gamestate != AppGameState::Game ==> !despawn && *final(laser) == *old(laser),
        gamestate == AppGameState::Game ==> {
            &&& ticked(old(laser).despawn_timer, final(laser).despawn_timer, delta as nat)
            &&& despawn == timer_finished(final(laser).despawn_timer)
        },
{
    if gamestate == AppGameState::Game {
        clock::tick(&mut laser.despawn_timer, delta);
        clock::finished(&laser.despawn_timer)
    } else {
        false
    }
}

} // verus!
