use bevy::ecs::entity::Entity;
use space_guardian::components::ForState;
use space_guardian::contact::{contact_system, Collision, Kinds, Pair};
use space_guardian::state::{state_enter_despawn, tag_lists, AppGameState, AppState};
use space_guardian::utils::{cleanup_system, escape_system};

fn kinds(ship: bool, asteroid: bool, laser: bool, guardian: bool) -> Kinds {
    Kinds { ship, asteroid, laser, guardian }
}

const SHIP: Kinds = Kinds { ship: true, asteroid: false, laser: false, guardian: false };
const ASTEROID: Kinds = Kinds { ship: false, asteroid: true, laser: false, guardian: false };
const LASER: Kinds = Kinds { ship: false, asteroid: false, laser: true, guardian: false };
const GUARDIAN: Kinds = Kinds { ship: false, asteroid: false, laser: false, guardian: true };

fn e(n: u32) -> Entity {
    Entity::from_raw(n)
}

fn started(a: u32, ka: Kinds, b: u32, kb: Kinds) -> Collision {
    Collision::Started(Pair { first: e(a), second: e(b), first_kinds: ka, second_kinds: kb })
}

#[test]
fn ship_and_asteroid_either_way_round() {
    let c = contact_system(&vec![started(1, SHIP, 2, ASTEROID), started(3, ASTEROID, 4, SHIP)]);
    assert_eq!(c.ship_asteroid.len(), 2);
    assert_eq!((c.ship_asteroid[0].ship, c.ship_asteroid[0].asteroid), (e(1), e(2)));
    assert_eq!((c.ship_asteroid[1].ship, c.ship_asteroid[1].asteroid), (e(4), e(3)));
    assert!(c.laser_asteroid.is_empty());
    assert!(c.asteroid_guardian.is_empty());
}

#[test]
fn laser_and_asteroid_either_way_round() {
    let c = contact_system(&vec![started(1, LASER, 2, ASTEROID), started(3, ASTEROID, 4, LASER)]);
    assert_eq!(c.laser_asteroid.len(), 2);
    assert_eq!((c.laser_asteroid[0].laser, c.laser_asteroid[0].asteroid), (e(1), e(2)));
    assert_eq!((c.laser_asteroid[1].laser, c.laser_asteroid[1].asteroid), (e(4), e(3)));
    assert!(c.ship_asteroid.is_empty());
    assert!(c.asteroid_guardian.is_empty());
}

#[test]
fn guardian_and_asteroid_either_way_round() {
    let c = contact_system(&vec![
        started(1, GUARDIAN, 2, ASTEROID),
        started(3, ASTEROID, 4, GUARDIAN),
    ]);
    assert_eq!(c.asteroid_guardian.len(), 2);
    assert_eq!((c.asteroid_guardian[0].asteroid, c.asteroid_guardian[0].guardian), (e(2), e(1)));
    assert_eq!((c.asteroid_guardian[1].asteroid, c.asteroid_guardian[1].guardian), (e(3), e(4)));
    assert!(c.ship_asteroid.is_empty());
    assert!(c.laser_asteroid.is_empty());
}

#[test]
fn other_pairs_emit_nothing() {
    let none = kinds(false, false, false, false);
    let c = contact_system(&vec![
        started(1, SHIP, 2, LASER),
        started(1, SHIP, 2, GUARDIAN),
        started(1, LASER, 2, GUARDIAN),
        started(1, ASTEROID, 2, ASTEROID),
        started(1, SHIP, 2, SHIP),
        started(1, none, 2, ASTEROID),
        started(1, none, 2, none),
    ]);
    assert!(c.ship_asteroid.is_empty());
    assert!(c.laser_asteroid.is_empty());
    assert!(c.asteroid_guardian.is_empty());
}

#[test]
fn stopped_collisions_are_ignored() {
    let c = contact_system(&vec![Collision::Stopped(Pair {
        first: e(1),
        second: e(2),
        first_kinds: SHIP,
        second_kinds: ASTEROID,
    })]);
    assert!(c.ship_asteroid.is_empty());
    assert!(c.laser_asteroid.is_empty());
    assert!(c.asteroid_guardian.is_empty());
}

#[test]
fn no_collisions_no_contacts() {
    let c = contact_system(&Vec::new());
    assert!(c.ship_asteroid.is_empty());
    assert!(c.laser_asteroid.is_empty());
    assert!(c.asteroid_guardian.is_empty());
}

#[test]
fn an_entity_of_several_kinds_matches_several_patterns() {
    let all = kinds(true, true, true, true);
    let c = contact_system(&vec![started(1, all, 2, all)]);
    assert_eq!(c.ship_asteroid.len(), 2);
    assert_eq!((c.ship_asteroid[0].ship, c.ship_asteroid[0].asteroid), (e(1), e(2)));
    assert_eq!((c.ship_asteroid[1].ship, c.ship_asteroid[1].asteroid), (e(2), e(1)));
    assert_eq!(c.laser_asteroid.len(), 2);
    assert_eq!((c.laser_asteroid[0].laser, c.laser_asteroid[0].asteroid), (e(2), e(1)));
    assert_eq!((c.laser_asteroid[1].laser, c.laser_asteroid[1].asteroid), (e(1), e(2)));
    assert_eq!(c.asteroid_guardian.len(), 2);
    assert_eq!((c.asteroid_guardian[0].asteroid, c.asteroid_guardian[0].guardian), (e(2), e(1)));
    assert_eq!((c.asteroid_guardian[1].asteroid, c.asteroid_guardian[1].guardian), (e(1), e(2)));
}

#[test]
fn contacts_keep_the_order_of_the_collisions() {
    let c = contact_system(&vec![
        started(10, ASTEROID, 11, LASER),
        started(20, SHIP, 21, ASTEROID),
        started(30, LASER, 31, ASTEROID),
        started(40, ASTEROID, 41, GUARDIAN),
    ]);
    assert_eq!(c.laser_asteroid.len(), 2);
    assert_eq!(c.laser_asteroid[0].laser, e(11));
    assert_eq!(c.laser_asteroid[1].laser, e(30));
    assert_eq!(c.ship_asteroid.len(), 1);
    assert_eq!(c.asteroid_guardian.len(), 1);
    assert_eq!(c.asteroid_guardian[0].guardian, e(41));
}

#[test]
fn tags_list_their_states() {
    let tag = ForState { states: vec![AppState::Game] };
    assert!(tag_lists(&tag, &AppState::Game));
    assert!(!tag_lists(&tag, &AppState::StartMenu));
    let tag = ForState { states: vec![AppGameState::Pause, AppGameState::GameOver] };
    assert!(tag_lists(&tag, &AppGameState::GameOver));
    assert!(!tag_lists(&tag, &AppGameState::Game));
    let empty: ForState<AppState> = ForState { states: Vec::new() };
    assert!(!tag_lists(&empty, &AppState::Game));
}

#[test]
fn entering_a_state_removes_what_is_not_tagged_for_it() {
    let tagged = vec![
        (e(1), ForState { states: vec![AppState::Game] }),
        (e(2), ForState { states: vec![AppState::StartMenu] }),
        (e(3), ForState { states: vec![AppState::StartMenu, AppState::Game] }),
        (e(4), ForState { states: Vec::new() }),
        (e(5), ForState { states: vec![AppState::Game] }),
    ];
    assert_eq!(state_enter_despawn(&AppState::StartMenu, &tagged), vec![e(1), e(4), e(5)]);
    assert_eq!(state_enter_despawn(&AppState::Game, &tagged), vec![e(2), e(4)]);
    let phases = vec![
        (e(1), ForState { states: vec![AppGameState::Pause] }),
        (e(2), ForState { states: vec![AppGameState::GameOver] }),
    ];
    assert_eq!(state_enter_despawn(&AppGameState::Game, &phases), vec![e(1), e(2)]);
    assert_eq!(state_enter_despawn(&AppGameState::Pause, &phases), vec![e(2)]);
    assert_eq!(state_enter_despawn(&AppGameState::Pause, &Vec::new()), Vec::new());
}

#[test]
fn cleanup_removes_the_marked() {
    let entities = vec![(e(1), true), (e(2), false), (e(3), true)];
    assert_eq!(cleanup_system(&entities), vec![e(1), e(3)]);
    assert_eq!(cleanup_system(&Vec::new()), Vec::new());
}

#[test]
fn escape_leads_to_the_menu() {
    let mut state = AppState::Game;
    assert!(!escape_system(&mut state, false));
    assert_eq!(state, AppState::Game);
    assert!(escape_system(&mut state, true));
    assert_eq!(state, AppState::StartMenu);
    assert!(escape_system(&mut state, true));
    assert_eq!(state, AppState::StartMenu);
}
