use bevy::time::{Timer, TimerMode};
use space_guardian::components::Ship;
use space_guardian::explosion::{ExplosionKind, SpawnExplosionEvent};
use space_guardian::player_ship::{
    is_steerable, ship_damage, ship_input_system, ship_invincible_color, ship_timers_system, spawn_ship,
    PlayerInput, ShipCommand, ShipDamage,
};
use space_guardian::state::AppGameState;
use std::time::Duration;

const SEC: u64 = 1_000_000_000;

fn idle() -> PlayerInput {
    PlayerInput {
        forward: false,
        backward: false,
        rotate_left: false,
        rotate_right: false,
        fire: false,
        speed_up: false,
        slow_down: false,
    }
}

#[test]
fn ship_starts_vulnerable_with_three_lives() {
    let ship = spawn_ship();
    assert_eq!(ship.life, 3);
    assert_eq!(ship.player_id, 1);
    assert_eq!(ship.rotation_speed, 3_000);
    assert_eq!(ship.thrust, 60_000);
    assert_eq!(ship.invincible_time, 0);
    assert!(ship.invincible_timer.finished());
    assert_eq!(ship.invincible_timer.duration(), Duration::from_secs(2));
    assert_eq!(ship.invincible_timer.elapsed(), Duration::from_secs(2));
    assert!(!ship.cannon_timer.finished());
    assert_eq!(ship.cannon_timer.duration(), Duration::from_millis(200));
    assert_eq!(ship.cannon_timer.elapsed(), Duration::ZERO);
}

#[test]
fn last_life_lost_ends_the_game() {
    let mut ship = spawn_ship();
    ship.life = 1;
    let mut gamestate = AppGameState::Game;
    let out = ship_damage(&mut ship, &mut gamestate, 10, -20);
    assert_eq!(
        out,
        ShipDamage::Destroyed(SpawnExplosionEvent { kind: ExplosionKind::ShipDead, x: 10, y: -20 })
    );
    assert_eq!(ship.life, 0);
    assert_eq!(gamestate, AppGameState::GameOver);
    assert!(ship.invincible_timer.finished());
    assert_eq!(ship.invincible_timer.elapsed(), Duration::from_secs(2));
}

#[test]
fn hit_with_lives_left_grants_invincibility() {
    let mut ship = spawn_ship();
    ship.invincible_time = 77;
    let mut gamestate = AppGameState::Game;
    let out = ship_damage(&mut ship, &mut gamestate, 10, -20);
    assert_eq!(
        out,
        ShipDamage::Hit(SpawnExplosionEvent { kind: ExplosionKind::ShipContact, x: 10, y: -20 })
    );
    assert_eq!(ship.life, 2);
    assert_eq!(ship.invincible_time, 0);
    assert!(!ship.invincible_timer.finished());
    assert_eq!(ship.invincible_timer.elapsed(), Duration::ZERO);
    assert_eq!(ship.invincible_timer.duration(), Duration::from_secs(2));
    assert_eq!(gamestate, AppGameState::Game);
}

#[test]
fn contact_while_invincible_rearms() {
    let mut ship = spawn_ship();
    let mut gamestate = AppGameState::Game;
    ship_damage(&mut ship, &mut gamestate, 0, 0);
    ship_timers_system(&mut ship, SEC);
    let out = ship_damage(&mut ship, &mut gamestate, 0, 0);
    assert_eq!(out, ShipDamage::Rearmed);
    assert_eq!(ship.life, 2);
    assert_eq!(ship.invincible_time, SEC);
    assert_eq!(ship.invincible_timer.elapsed(), Duration::ZERO);
    assert!(!ship.invincible_timer.finished());
    assert_eq!(gamestate, AppGameState::Game);
}

#[test]
fn rearming_stops_at_the_maximum() {
    let mut ship = spawn_ship();
    let mut gamestate = AppGameState::Game;
    ship_damage(&mut ship, &mut gamestate, 0, 0);
    ship.invincible_time = 4 * SEC;
    // 4 s used and 1 s running reach the 5 s maximum: no re-arm.
    ship_timers_system(&mut ship, SEC);
    let out = ship_damage(&mut ship, &mut gamestate, 0, 0);
    assert_eq!(out, ShipDamage::Ignored);
    assert_eq!(ship.life, 2);
    assert_eq!(ship.invincible_time, 4 * SEC);
    assert_eq!(ship.invincible_timer.elapsed(), Duration::from_secs(1));
    assert!(!ship.invincible_timer.finished());
    // One nanosecond less stays below it.
    ship.invincible_time = 4 * SEC - 1;
    let out = ship_damage(&mut ship, &mut gamestate, 0, 0);
    assert_eq!(out, ShipDamage::Rearmed);
    assert_eq!(ship.invincible_time, 5 * SEC - 1);
    assert_eq!(ship.invincible_timer.elapsed(), Duration::ZERO);
}

#[test]
fn three_hits_destroy_the_ship() {
    let mut ship = spawn_ship();
    let mut gamestate = AppGameState::Game;
    for expected in [2u32, 1] {
        let out = ship_damage(&mut ship, &mut gamestate, 0, 0);
        assert!(matches!(out, ShipDamage::Hit(_)));
        assert_eq!(ship.life, expected);
        ship_timers_system(&mut ship, 2 * SEC);
        assert!(ship.invincible_timer.finished());
    }
    let out = ship_damage(&mut ship, &mut gamestate, 0, 0);
    assert!(matches!(out, ShipDamage::Destroyed(_)));
    assert_eq!(gamestate, AppGameState::GameOver);
}

#[test]
fn timers_advance_together() {
    let mut ship = spawn_ship();
    let mut gamestate = AppGameState::Game;
    ship_damage(&mut ship, &mut gamestate, 0, 0);
    ship_timers_system(&mut ship, 150_000_000);
    assert_eq!(ship.cannon_timer.elapsed(), Duration::from_millis(150));
    assert_eq!(ship.invincible_timer.elapsed(), Duration::from_millis(150));
    assert!(!ship.cannon_timer.finished());
    ship_timers_system(&mut ship, 150_000_000);
    assert_eq!(ship.cannon_timer.elapsed(), Duration::from_millis(200));
    assert!(ship.cannon_timer.finished());
    assert_eq!(ship.invincible_timer.elapsed(), Duration::from_millis(300));
    assert!(!ship.invincible_timer.finished());
    assert_eq!(ship.life, 2);
}

#[test]
fn no_command_outside_play() {
    let mut ship = spawn_ship();
    ship_timers_system(&mut ship, SEC);
    let all = PlayerInput {
        forward: true,
        backward: true,
        rotate_left: true,
        rotate_right: true,
        fire: true,
        speed_up: true,
        slow_down: true,
    };
    for state in [AppGameState::Invalid, AppGameState::Pause, AppGameState::GameOver] {
        assert_eq!(ship_input_system(&mut ship, state, &all), None);
        assert!(ship.cannon_timer.finished());
    }
}

#[test]
fn impulse_by_controls() {
    let mut ship = spawn_ship();
    let run = |ship: &mut Ship, input: PlayerInput| {
        ship_input_system(ship, AppGameState::Game, &input).unwrap().impulse
    };
    assert_eq!(run(&mut ship, idle()), 0);
    assert_eq!(run(&mut ship, PlayerInput { backward: true, speed_up: true, ..idle() }), 0);
    assert_eq!(run(&mut ship, PlayerInput { forward: true, ..idle() }), 60_000);
    assert_eq!(run(&mut ship, PlayerInput { forward: true, backward: true, ..idle() }), 3_000);
    assert_eq!(run(&mut ship, PlayerInput { forward: true, speed_up: true, ..idle() }), 120_000);
    assert_eq!(run(&mut ship, PlayerInput { forward: true, slow_down: true, ..idle() }), 24_000);
    assert_eq!(
        run(
            &mut ship,
            PlayerInput {
                forward: true,
                backward: true,
                speed_up: true,
                slow_down: true,
                ..idle()
            }
        ),
        2_400
    );
}

#[test]
fn rotation_by_controls() {
    let mut ship = spawn_ship();
    let run = |ship: &mut Ship, input: PlayerInput| {
        ship_input_system(ship, AppGameState::Game, &input).unwrap().angvel
    };
    assert_eq!(run(&mut ship, idle()), None);
    assert_eq!(run(&mut ship, PlayerInput { rotate_left: true, ..idle() }), Some(3_000));
    assert_eq!(run(&mut ship, PlayerInput { rotate_right: true, ..idle() }), Some(-3_000));
    assert_eq!(
        run(&mut ship, PlayerInput { rotate_left: true, rotate_right: true, ..idle() }),
        Some(3_000)
    );
}

#[test]
fn cannon_fires_once_per_period() {
    let mut ship = spawn_ship();
    let fire = PlayerInput { fire: true, ..idle() };
    let c = ship_input_system(&mut ship, AppGameState::Game, &fire).unwrap();
    assert_eq!(c, ShipCommand { impulse: 0, angvel: None, fire: false });
    ship_timers_system(&mut ship, 200_000_000);
    let c = ship_input_system(&mut ship, AppGameState::Game, &idle()).unwrap();
    assert!(!c.fire);
    assert!(ship.cannon_timer.finished());
    let c = ship_input_system(&mut ship, AppGameState::Game, &fire).unwrap();
    assert!(c.fire);
    assert!(!ship.cannon_timer.finished());
    assert_eq!(ship.cannon_timer.elapsed(), Duration::ZERO);
    assert_eq!(ship.cannon_timer.duration(), Duration::from_millis(200));
    let c = ship_input_system(&mut ship, AppGameState::Game, &fire).unwrap();
    assert!(!c.fire);
}

#[test]
fn tint_of_the_ship() {
    let mut ship = spawn_ship();
    assert_eq!(ship_invincible_color(&ship), None);
    ship.invincible_timer = Timer::new(Duration::from_secs(2), TimerMode::Once);
    assert_eq!(ship_invincible_color(&ship), Some(0));
    ship_timers_system(&mut ship, 100_000_000);
    assert_eq!(ship_invincible_color(&ship), Some(200));
    ship_timers_system(&mut ship, 500_000_000);
    assert_eq!(ship_invincible_color(&ship), Some(200));
    ship_timers_system(&mut ship, 350_000_000);
    assert_eq!(ship_invincible_color(&ship), Some(900));
    ship_timers_system(&mut ship, 2 * SEC);
    assert_eq!(ship_invincible_color(&ship), None);
}

#[test]
fn ships_that_the_rules_accept() {
    let mut ship = spawn_ship();
    assert!(ship.is_wf());
    assert!(is_steerable(&ship));
    ship.thrust = -1;
    assert!(!is_steerable(&ship));
    ship.thrust = i64::MAX / 4;
    assert!(is_steerable(&ship));
    ship.thrust = i64::MAX / 4 + 1;
    assert!(!is_steerable(&ship));
    ship.thrust = 0;
    ship.rotation_speed = i64::MIN;
    assert!(!is_steerable(&ship));
    ship.cannon_timer.pause();
    assert!(!ship.is_wf());
    ship.cannon_timer.unpause();
    assert!(ship.is_wf());
    ship.invincible_timer = Timer::new(Duration::from_secs(1), TimerMode::Repeating);
    assert!(!ship.is_wf());
}
