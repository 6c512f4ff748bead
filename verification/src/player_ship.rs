//! The player ship: its controls, its timers, and what an asteroid does to it.

use crate::clock;
use crate::clock::{ticked, timer_duration, timer_elapsed, timer_finished};
use crate::components::Ship;
use crate::config::{INVINCIBLE_TIME, MAX_INVINCIBLE_TIME, NANOS_PER_SEC, START_LIFE, UNIT};
use crate::explosion::{ExplosionKind, SpawnExplosionEvent};
use crate::state::AppGameState;
use bevy::ecs::entity::Entity;
use vstd::prelude::*;

verus! {

/// What the player can ask of the ship during play.
#[derive(Debug, Clone, Copy, PartialEq, Eq, Structural, Hash)]
pub enum PlayerAction {
    Forward,
    Backward,
    RotateLeft,
    RotateRight,
    Fire,
    SpeedUp,
    SlowDown,
}

/// A ship began touching an asteroid.
pub struct ShipAsteroidContactEvent {
    pub ship: Entity,
    pub asteroid: Entity,
}

/// Period of the cannon, in nanoseconds.
pub const CANNON_PERIOD: u64 = 200_000_000;

/// The ship of a game that starts: full lives, the cannon timer untouched,
/// and the invincibility timer already run out, so that the first contact
/// counts.
pub fn spawn_ship() -> (ship: Ship)
    ensures
        ship.wf(),
        ship.rotation_speed == 3 * UNIT,
        ship.thrust == 60 * UNIT,
        ship.life == START_LIFE,
        ship.player_id == 1,
        ship.invincible_time == 0,
        timer_duration(ship.cannon_timer) == CANNON_PERIOD,
        timer_elapsed(ship.cannon_timer) == 0,
        !timer_finished(ship.cannon_timer),
        timer_duration(ship.invincible_timer) == INVINCIBLE_TIME,
        timer_elapsed(ship.invincible_timer) == INVINCIBLE_TIME,
        timer_finished(ship.invincible_timer),
{
    let mut invincible_timer = clock::once(INVINCIBLE_TIME);
    clock::tick(&mut invincible_timer, INVINCIBLE_TIME);
    Ship {
        rotation_speed: 3 * UNIT,
        thrust: 60 * UNIT,
        life: START_LIFE,
        cannon_timer: clock::once(CANNON_PERIOD),
        player_id: 1u32,
        invincible_timer,
        invincible_time: 0,
    }
}

/// Advances both timers of the ship by `delta` nanoseconds.
pub fn ship_timers_system(ship: &mut Ship, delta: u64)
    requires
        old(ship).wf(),
    ensures
        final(ship).wf(),
        ticked(old(ship).cannon_timer, final(ship).cannon_timer, delta as nat),
        ticked(old(ship).invincible_timer, final(ship).invincible_timer, delta as nat),
        final(ship).rotation_speed == old(ship).rotation_speed,
        final(ship).thrust == old(ship).thrust,
        final(ship).life == old(ship).life,
        final(ship).player_id == old(ship).player_id,
        final(ship).invincible_time == old(ship).invincible_time,
{
    clock::tick(&mut ship.cannon_timer, delta);
    clock::tick(&mut ship.invincible_timer, delta);
}

/// What a ship-asteroid contact did.
#[derive(Clone, Copy, Debug, PartialEq, Eq, Structural)]
pub enum ShipDamage {
    /// The last life was lost: the ship is to be removed with its children,
    /// and this explosion shown.
    Destroyed(SpawnExplosionEvent),
    /// A life was lost and a new invincibility window began; this explosion
    /// is to be shown.
    Hit(SpawnExplosionEvent),
    /// The ship was invincible and its window began anew.
    Rearmed,
    /// The ship was invincible and has no invincibility left to add.
    Ignored,
}

/// Whether a contact finds the ship vulnerable: its invincibility has run out.
pub open spec fn vulnerable(ship: Ship) -> bool {
    timer_finished(ship.invincible_timer)
}

/// Whether a contact with an invincible ship may start its window anew: the
/// invincibility used up so far, with the running window counted in, stays
/// below the maximum.
pub open spec fn may_rearm(ship: Ship) -> bool {
    ship.invincible_time + timer_elapsed(ship.invincible_timer) < MAX_INVINCIBLE_TIME
}

/// The invincibility timer after a contact restarted it.
pub open spec fn restarted(before: Ship, after: Ship) -> bool {
    &&& timer_elapsed(after.invincible_timer) == 0
    &&& !timer_finished(after.invincible_timer)
    &&& timer_duration(after.invincible_timer) == timer_duration(before.invincible_timer)
}

/// What does not change in a contact.
pub open spec fn same_ship(before: Ship, after: Ship) -> bool {
    &&& after.rotation_speed == before.rotation_speed
    &&& after.thrust == before.thrust
    &&& after.cannon_timer == before.cannon_timer
    &&& after.player_id == before.player_id
}

/// What the controls do not change.
pub open spec fn same_ship_but_cannon(before: Ship, after: Ship) -> bool {
    &&& after.rotation_speed == before.rotation_speed
    &&& after.thrust == before.thrust
    &&& after.life == before.life
    &&& after.player_id == before.player_id
    &&& after.invincible_timer == before.invincible_timer
    &&& after.invincible_time == before.invincible_time
}

/// Handles one contact of the ship, which is at `(x, y)`, with an asteroid.
///
/// A vulnerable ship loses a life and its used-up invincibility is cleared.
/// If that was the last life, the ship is destroyed and the game is over, and
/// its timers stay as they are; else a new invincibility window begins. An
/// invincible ship loses nothing: while the invincibility used so far stays
/// below the maximum, the running window is added to it and begins anew;
/// beyond that the contact changes nothing at all.
pub fn ship_damage(ship: &mut Ship, gamestate: &mut AppGameState, x: i64, y: i64) -> (outcome:
    ShipDamage)
    requires
        old(ship).wf(),
        vulnerable(*old(ship)) ==> old(ship).life > 0,
    ensures
        final(ship).wf(),
        same_ship(*old(ship), *final(ship)),
        final(ship).life <= old(ship).life,
        vulnerable(*old(ship)) ==> {
            &&& final(ship).life == old(ship).life - 1
            &&& final(ship).invincible_time == 0
            &&& old(ship).life == 1 ==> {
                &&& outcome == ShipDamage::Destroyed(
                    SpawnExplosionEvent { kind: ExplosionKind::ShipDead, x, y },
                )
                &&& *final(gamestate) == AppGameState::GameOver
                &&& final(ship).invincible_timer == old(ship).invincible_timer
            }
            &&& old(ship).life > 1 ==> {
                &&& outcome == ShipDamage::Hit(
                    SpawnExplosionEvent { kind: ExplosionKind::ShipContact, x, y },
                )
                &&& *final(gamestate) == *old(gamestate)
                &&& restarted(*old(ship), *final(ship))
            }
        },
        !vulnerable(*old(ship)) ==> {
            &&& final(ship).life == old(ship).life
            &&& *final(gamestate) == *old(gamestate)
        },
        !vulnerable(*old(ship)) && may_rearm(*old(ship)) ==> {
            &&& outcome == ShipDamage::Rearmed
            &&& final(ship).invincible_time == old(ship).invincible_time + timer_elapsed(
                old(ship).invincible_timer,
            )
            &&& final(ship).invincible_time < MAX_INVINCIBLE_TIME
            &&& restarted(*old(ship), *final(ship))
        },
        !vulnerable(*old(ship)) && !may_rearm(*old(ship)) ==> {
            &&& outcome == ShipDamage::Ignored
            &&& *final(ship) == *old(ship)
        },
{
    if clock::finished(&ship.invincible_timer) {
        ship.invincible_time = 0;
        ship.life = ship.life - 1;
        if ship.life == 0 {
            *gamestate = AppGameState::GameOver;
            ShipDamage::Destroyed(SpawnExplosionEvent { kind: ExplosionKind::ShipDead, x, y })
        } else {
            clock::reset(&mut ship.invincible_timer);
            ShipDamage::Hit(SpawnExplosionEvent { kind: ExplosionKind::ShipContact, x, y })
        }
    } else {
        let total: u128 = ship.invincible_time as u128 + clock::elapsed(&ship.invincible_timer);
        if total < MAX_INVINCIBLE_TIME as u128 {
            // Contact while invincible: re-arm the window if allowed.
            ship.invincible_time = total as u64;
            clock::reset(&mut ship.invincible_timer);
            ShipDamage::Rearmed
        } else {
            ShipDamage::Ignored
        }
    }
}

/// The player actions that are held down in a frame.
#[derive(Debug, Clone, Copy, PartialEq, Eq, Structural)]
pub struct PlayerInput {
    pub forward: bool,
    pub backward: bool,
    pub rotate_left: bool,
    pub rotate_right: bool,
    pub fire: bool,
    pub speed_up: bool,
    pub slow_down: bool,
}

/// What the controls ask of the ship in a frame.
#[derive(Debug, Clone, Copy, PartialEq, Eq, Structural)]
pub struct ShipCommand {
    /// Impulse along the ship's heading, in thousandths.
    pub impulse: i64,
    /// The spin to set, if the ship is to turn.
    pub angvel: Option<i64>,
    /// Whether a laser leaves the ship.
    pub fire: bool,
}

/// The impulse that the controls ask for: none unless `Forward` is held; else
/// the ship's thrust, cut to a twentieth while braking, doubled while
/// speeding up, and cut to two fifths while slowing down.
pub open spec fn impulse_of(thrust: int, input: PlayerInput) -> int {
    if !input.forward {
        0
    } else {
        thrust * (if input.speed_up {
            2int
        } else {
            1int
        }) * (if input.slow_down {
            2int
        } else {
            1int
        }) / ((if input.backward {
            20int
        } else {
            1int
        }) * (if input.slow_down {
            5int
        } else {
            1int
        }))
    }
}

/// The spin that the controls ask for: the ship's rotation speed to the left,
/// its negative to the right, left winning over right; none if neither is
/// held.
pub open spec fn angvel_of(rotation_speed: int, input: PlayerInput) -> Option<int> {
    if input.rotate_left {
        Some(rotation_speed)
    } else if input.rotate_right {
        Some(-rotation_speed)
    } else {
        None
    }
}

/// The ships whose commands can be computed in machine integers.
pub open spec fn steerable(ship: Ship) -> bool {
    &&& 0 <= ship.thrust <= i64::MAX / 4
    &&& ship.rotation_speed > i64::MIN
}

/// Tells whether the commands of a ship can be computed.
pub fn is_steerable(ship: &Ship) -> (ok: bool)
    ensures
        ok == steerable(*ship),
{
    0 <= ship.thrust && ship.thrust <= i64::MAX / 4 && ship.rotation_speed > i64::MIN
}

/// Turns the held controls into a command for the ship. Outside active play
/// there is none. A laser leaves the ship if `Fire` is held and the cannon
/// timer has run out, and the cannon timer then starts anew.
pub fn ship_input_system(ship: &mut Ship, gamestate: AppGameState, input: &PlayerInput) -> (command:
    Option<ShipCommand>)
    requires
        old(ship).wf(),
        steerable(*old(ship)),
    ensures
        final(ship).wf(),
        same_ship_but_cannon(*old(ship), *final(ship)),
        command.is_some() == (gamestate == AppGameState::Game),
        command.is_none() ==> *final(ship) == *old(ship),
        command matches Some(c) ==> {
            &&& c.impulse == impulse_of(old(ship).thrust as int, *input)
            &&& match angvel_of(old(ship).rotation_speed as int, *input) {
                Some(w) => c.angvel == Some(w as i64),
                None => c.angvel.is_none(),
            }
            &&& c.fire == (input.fire && timer_finished(old(ship).cannon_timer))
            &&& c.fire ==> {
                &&& timer_elapsed(final(ship).cannon_timer) == 0
                &&& !timer_finished(final(ship).cannon_timer)
                &&& timer_duration(final(ship).cannon_timer) == timer_duration(
                    old(ship).cannon_timer,
                )
            }
            &&& !c.fire ==> final(ship).cannon_timer == old(ship).cannon_timer
        },
{
    if gamestate != AppGameState::Game {
        return None;
    }
    let speed_up: i64 = if input.speed_up {
        2
    } else {
        1
    };
    let slow_down: i64 = if input.slow_down {
        2
    } else {
        1
    };
    let brake: i64 = if input.backward {
        20
    } else {
        1
    };
    let slack: i64 = if input.slow_down {
        5
    } else {
        1
    };
    let impulse: i64 = if input.forward {
        assert(ship.thrust * speed_up * slow_down <= ship.thrust * 4) by (nonlinear_arith)
            requires
                0 <= ship.thrust,
                1 <= speed_up <= 2,
                1 <= slow_down <= 2,
        ;
        assert(0 <= ship.thrust * speed_up) by (nonlinear_arith)
            requires
                0 <= ship.thrust,
                1 <= speed_up <= 2,
        ;
        assert(ship.thrust * speed_up <= ship.thrust * 2) by (nonlinear_arith)
            requires
                0 <= ship.thrust,
                1 <= speed_up <= 2,
        ;
        assert(0 <= ship.thrust * speed_up * slow_down) by (nonlinear_arith)
            requires
                0 <= ship.thrust,
                1 <= speed_up <= 2,
                1 <= slow_down <= 2,
        ;
        assert(1 <= brake * slack <= 100) by (nonlinear_arith)
            requires
                1 <= brake <= 20,
                1 <= slack <= 5,
        ;
        ship.thrust * speed_up * slow_down / (brake * slack)
    } else {
        0
    };
    let angvel: Option<i64> = if input.rotate_left {
        Some(ship.rotation_speed)
    } else if input.rotate_right {
        Some(-ship.rotation_speed)
    } else {
        None
    };
    let fire = input.fire && clock::finished(&ship.cannon_timer);
    if fire {
        clock::reset(&mut ship.cannon_timer);
    }
    Some(ShipCommand { impulse, angvel, fire })
}

/// How opaque an invincible ship is drawn, in thousandths, after `elapsed`
/// nanoseconds of its window: it fades in twice a second.
pub open spec fn blink_alpha(elapsed: nat) -> nat {
    (elapsed * 2 % (NANOS_PER_SEC as nat)) / 1_000_000
}

/// Tells how to tint the ship. `None` is the plain tint of a vulnerable ship;
/// an invincible ship blinks, and the result is its opacity in thousandths.
pub fn ship_invincible_color(ship: &Ship) -> (alpha: Option<u32>)
    requires
        ship.wf(),
    ensures
        alpha.is_none() == vulnerable(*ship),
        alpha matches Some(a) ==> a == blink_alpha(timer_elapsed(ship.invincible_timer)) && a < 1000,
{
    if clock::finished(&ship.invincible_timer) {
        None
    } else {
        let elapsed: u128 = clock::elapsed(&ship.invincible_timer);
        let phase: u128 = (elapsed * 2) % (NANOS_PER_SEC as u128);
        Some((phase / 1_000_000) as u32)
    }
}

} // verus!
