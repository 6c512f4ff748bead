use space_guardian::menu::{
    get_scheme, menu_input_system, GamepadButtonType, KeyCode, MenuAction, MenuInput,
    KEY_ACTION_PAIRS,
};
use space_guardian::state::{AppGameState, AppState, Flow};

fn input(accept: bool, pause_unpause: bool, exit_to_menu: bool, quit: bool) -> MenuInput {
    MenuInput { accept, pause_unpause, exit_to_menu, quit }
}

fn flow(state: AppState, gamestate: AppGameState, physics_active: bool) -> Flow {
    Flow { state, gamestate, physics_active }
}

#[test]
fn test_menu_action_pairs() {
    assert_eq!(KEY_ACTION_PAIRS.len(), 4);
}

#[test]
fn test_menu_action_pairs_keycode() {
    KEY_ACTION_PAIRS.iter().enumerate().for_each(|(i, (keycode, action))| {
        assert_eq!(keycode, &KEY_ACTION_PAIRS[i].0);
        assert_eq!(action, &KEY_ACTION_PAIRS[i].1);
    });
}

#[test]
fn key_pairs_follow_the_scheme() {
    let actions = [
        MenuAction::Accept,
        MenuAction::PauseUnpause,
        MenuAction::ExitToMenu,
        MenuAction::Quit,
    ];
    for (i, action) in actions.iter().enumerate() {
        assert_eq!(KEY_ACTION_PAIRS[i].0, get_scheme(action).0);
        assert_eq!(KEY_ACTION_PAIRS[i].1, *action);
    }
}

#[test]
fn scheme_of_each_action() {
    assert_eq!(get_scheme(&MenuAction::Accept), (KeyCode::Return, GamepadButtonType::South));
    assert_eq!(get_scheme(&MenuAction::PauseUnpause), (KeyCode::Escape, GamepadButtonType::Start));
    assert_eq!(get_scheme(&MenuAction::ExitToMenu), (KeyCode::Back, GamepadButtonType::Select));
    assert_eq!(get_scheme(&MenuAction::Quit), (KeyCode::Escape, GamepadButtonType::East));
}

#[test]
fn flow_starts_in_the_menu() {
    assert_eq!(Flow::new(), flow(AppState::StartMenu, AppGameState::Invalid, true));
}

#[test]
fn accept_starts_the_game() {
    let mut f = Flow::new();
    let exit = menu_input_system(&mut f, &input(true, false, false, false));
    assert!(!exit);
    assert_eq!(f, flow(AppState::Game, AppGameState::Game, true));
}

#[test]
fn pause_suspends_physics() {
    let mut f = flow(AppState::Game, AppGameState::Game, true);
    let exit = menu_input_system(&mut f, &input(false, true, false, false));
    assert!(!exit);
    assert_eq!(f, flow(AppState::Game, AppGameState::Pause, false));
}

#[test]
fn unpause_resumes_physics() {
    let mut f = flow(AppState::Game, AppGameState::Pause, false);
    let exit = menu_input_system(&mut f, &input(false, true, false, false));
    assert!(!exit);
    assert_eq!(f, flow(AppState::Game, AppGameState::Game, true));
}

#[test]
fn accept_after_game_over_returns_to_menu() {
    let mut f = flow(AppState::Game, AppGameState::GameOver, true);
    let exit = menu_input_system(&mut f, &input(true, false, false, false));
    assert!(!exit);
    assert_eq!(f, flow(AppState::StartMenu, AppGameState::Invalid, true));
}

#[test]
fn exit_to_menu_from_pause_turns_physics_on() {
    let mut f = flow(AppState::Game, AppGameState::Pause, false);
    let exit = menu_input_system(&mut f, &input(false, false, true, false));
    assert!(!exit);
    assert_eq!(f, flow(AppState::StartMenu, AppGameState::Invalid, true));
}

#[test]
fn exit_to_menu_wins_over_pause() {
    let mut f = flow(AppState::Game, AppGameState::Game, true);
    menu_input_system(&mut f, &input(false, true, true, false));
    assert_eq!(f, flow(AppState::StartMenu, AppGameState::Invalid, true));
}

#[test]
fn exit_to_menu_does_nothing_in_the_menu() {
    let mut f = Flow::new();
    let exit = menu_input_system(&mut f, &input(false, false, true, false));
    assert!(!exit);
    assert_eq!(f, Flow::new());
}

#[test]
fn quit_counts_in_menu_and_after_game_over() {
    let mut f = Flow::new();
    assert!(menu_input_system(&mut f, &input(false, false, false, true)));
    assert_eq!(f, Flow::new());
    let mut f = flow(AppState::Game, AppGameState::GameOver, true);
    assert!(menu_input_system(&mut f, &input(false, false, false, true)));
    assert_eq!(f, flow(AppState::Game, AppGameState::GameOver, true));
}

#[test]
fn quit_is_ignored_during_play_and_pause() {
    let mut f = flow(AppState::Game, AppGameState::Game, true);
    assert!(!menu_input_system(&mut f, &input(false, false, false, true)));
    assert_eq!(f, flow(AppState::Game, AppGameState::Game, true));
    let mut f = flow(AppState::Game, AppGameState::Pause, false);
    assert!(!menu_input_system(&mut f, &input(false, false, false, true)));
    assert_eq!(f, flow(AppState::Game, AppGameState::Pause, false));
}

#[test]
fn escape_key_pauses_in_play_and_quits_in_menu() {
    // The escape key presses both `PauseUnpause` and `Quit`.
    let escape = input(false, true, false, true);
    let mut f = flow(AppState::Game, AppGameState::Game, true);
    assert!(!menu_input_system(&mut f, &escape));
    assert_eq!(f.gamestate, AppGameState::Pause);
    let mut f = Flow::new();
    assert!(menu_input_system(&mut f, &escape));
    assert_eq!(f, Flow::new());
}

#[test]
fn nothing_pressed_changes_nothing() {
    let all = [
        flow(AppState::StartMenu, AppGameState::Invalid, true),
        flow(AppState::Game, AppGameState::Game, true),
        flow(AppState::Game, AppGameState::Pause, false),
        flow(AppState::Game, AppGameState::GameOver, true),
    ];
    for start in all {
        let mut f = start;
        assert!(!menu_input_system(&mut f, &input(false, false, false, false)));
        assert_eq!(f, start);
    }
}
