//! Menu actions, their default bindings, and the flow between menu and game.

use crate::state::{AppGameState, AppState, Flow};
use vstd::prelude::*;

verus! {

/// List of user actions associated to menu/ui interaction.
#[derive(Debug, Clone, Copy, PartialEq, Eq, Structural, Hash)]
pub enum MenuAction {
    /// Start the game when in the start screen.
    /// Go to the start screen when in the game over screen.
    Accept,
    /// During gameplay, pause the game.
    /// Also unpause the game when in the pause screen.
    PauseUnpause,
    /// During gameplay, directly exit to the initial screen.
    ExitToMenu,
    /// During non-gameplay screens, quit the game.
    Quit,
}

/// The keys that menu actions are bound to.
#[derive(Debug, Clone, Copy, PartialEq, Eq, Structural, Hash)]
pub enum KeyCode {
    Return,
    Escape,
    Back,
}

/// The gamepad buttons that menu actions are bound to.
#[derive(Debug, Clone, Copy, PartialEq, Eq, Structural, Hash)]
pub enum GamepadButtonType {
    South,
    East,
    Start,
    Select,
}

pub const KEY_ACTION_PAIRS: [(KeyCode, MenuAction); 4] = [
    (KeyCode::Return, MenuAction::Accept),
    (KeyCode::Escape, MenuAction::PauseUnpause),
    (KeyCode::Back, MenuAction::ExitToMenu),
    (KeyCode::Escape, MenuAction::Quit),
];

/// The menu actions that were just pressed in a frame. One key may press
/// several at once.
#[derive(Debug, Clone, Copy, PartialEq, Eq, Structural)]
pub struct MenuInput {
    pub accept: bool,
    pub pause_unpause: bool,
    pub exit_to_menu: bool,
    pub quit: bool,
}

/// Where the flow goes on the given input.
///
/// Leaving for the menu wins over everything else: outside the start menu it
/// leads there, turns the simulation back on and makes the phase `Invalid`.
/// Otherwise `Accept` starts the game from the start menu and returns to the
/// menu after a game over, and `PauseUnpause` toggles between play and pause,
/// suspending and resuming the simulation.
pub open spec fn next_flow(flow: Flow, input: MenuInput) -> Flow {
    if flow.state != AppState::StartMenu && input.exit_to_menu {
        Flow { state: AppState::StartMenu, gamestate: AppGameState::Invalid, physics_active: true }
    } else {
        match (flow.state, flow.gamestate) {
            (AppState::StartMenu, _) => if input.accept {
                Flow { state: AppState::Game, gamestate: AppGameState::Game, ..flow }
            } else {
                flow
            },
            (AppState::Game, AppGameState::Game) => if input.pause_unpause {
                Flow { gamestate: AppGameState::Pause, physics_active: false, ..flow }
            } else {
                flow
            },
            (AppState::Game, AppGameState::Pause) => if input.pause_unpause {
                Flow { gamestate: AppGameState::Game, physics_active: true, ..flow }
            } else {
                flow
            },
            (AppState::Game, AppGameState::GameOver) => if input.accept {
                Flow { state: AppState::StartMenu, gamestate: AppGameState::Invalid, ..flow }
            } else {
                flow
            },
            (AppState::Game, AppGameState::Invalid) => flow,
        }
    }
}

/// Whether the input asks to leave the program: `Quit` counts in the start
/// menu and after a game over.
pub open spec fn quits(flow: Flow, input: MenuInput) -> bool {
    input.quit && (flow.state == AppState::StartMenu || flow.gamestate == AppGameState::GameOver)
}

/// Applies the menu actions of a frame to the flow and tells whether the
/// program is to exit.
pub fn menu_input_system(flow: &mut Flow, input: &MenuInput) -> (exit: bool)
    ensures
        *final(flow) == next_flow(*old(flow), *input),
        exit == quits(*old(flow), *input),
{
    let was = *flow;
    let want_menu = was.state != AppState::StartMenu && input.exit_to_menu;
    if want_menu {
        flow.state = AppState::StartMenu;
        flow.gamestate = AppGameState::Invalid;
        flow.physics_active = true;
    }
    let mut exit = false;
    match was.state {
        AppState::StartMenu => {
            if input.accept {
                flow.state = AppState::Game;
                flow.gamestate = AppGameState::Game;
            }
            if input.quit {
                exit = true;
            }
        },
        AppState::Game => match was.gamestate {
            AppGameState::Game => {
                if input.pause_unpause && !want_menu {
                    flow.gamestate = AppGameState::Pause;
                    flow.physics_active = false;
                }
            },
            AppGameState::Pause => {
                if input.pause_unpause && !want_menu {
                    flow.gamestate = AppGameState::Game;
                    flow.physics_active = true;
                }
            },
            AppGameState::GameOver => {
                if input.accept && !want_menu {
                    flow.state = AppState::StartMenu;
                    flow.gamestate = AppGameState::Invalid;
                }
                if input.quit {
                    exit = true;
                }
            },
            AppGameState::Invalid => {},
        },
    }
    exit
}

/// A well-formed flow stays well-formed under every input: the phase is
/// `Invalid` exactly in the start menu, and the simulation is suspended
/// exactly during a pause.
pub proof fn lemma_next_flow_wf(flow: Flow, input: MenuInput)
    requires
        flow.wf(),
    ensures
        next_flow(flow, input).wf(),
{
}

/// From anywhere but the start menu, `ExitToMenu` leads to the start menu
/// with the simulation on, whatever else is pressed.
pub proof fn lemma_exit_to_menu(flow: Flow, input: MenuInput)
    requires
        flow.state != AppState::StartMenu,
        input.exit_to_menu,
    ensures
        next_flow(flow, input) == (Flow {
            state: AppState::StartMenu,
            gamestate: AppGameState::Invalid,
            physics_active: true,
        }),
{
}

/// Pausing and unpausing a running game leads back to where it was.
pub proof fn lemma_pause_round_trip(flow: Flow, input: MenuInput)
    requires
        flow.wf(),
        flow.gamestate == AppGameState::Game,
        input.pause_unpause,
        !input.exit_to_menu,
    ensures
        next_flow(flow, input).gamestate == AppGameState::Pause,
        !next_flow(flow, input).physics_active,
        next_flow(next_flow(flow, input), input) == flow,
{
}

/// The default key of a menu action.
pub open spec fn key_of(action: MenuAction) -> KeyCode {
    match action {
        MenuAction::Accept => KeyCode::Return,
        MenuAction::PauseUnpause => KeyCode::Escape,
        MenuAction::ExitToMenu => KeyCode::Back,
        MenuAction::Quit => KeyCode::Escape,
    }
}

/// The default gamepad button of a menu action.
pub open spec fn button_of(action: MenuAction) -> GamepadButtonType {
    match action {
        MenuAction::Accept => GamepadButtonType::South,
        MenuAction::PauseUnpause => GamepadButtonType::Start,
        MenuAction::ExitToMenu => GamepadButtonType::Select,
        MenuAction::Quit => GamepadButtonType::East,
    }
}

/// The default key and gamepad button of a menu action.
pub fn get_scheme(menu_action: &MenuAction) -> (scheme: (KeyCode, GamepadButtonType))
    ensures
        scheme == (key_of(*menu_action), button_of(*menu_action)),
{
    match menu_action {
        MenuAction::Accept => (KeyCode::Return, GamepadButtonType::South),
        MenuAction::PauseUnpause => (KeyCode::Escape, GamepadButtonType::Start),
        MenuAction::ExitToMenu => (KeyCode::Back, GamepadButtonType::Select),
        MenuAction::Quit => (KeyCode::Escape, GamepadButtonType::East),
    }
}

/// The menu actions, in the order of their bindings.
pub const ACTIONS: [MenuAction; 4] = [
    MenuAction::Accept,
    MenuAction::PauseUnpause,
    MenuAction::ExitToMenu,
    MenuAction::Quit,
];

/// Which kind of binding a key pad lists.
#[derive(Debug, Clone, Copy, PartialEq, Eq, Structural)]
pub enum ActionMode {
    KeyCode,
    GamepadButton,
}

/// The bindings of one kind: keys or gamepad buttons, never both.
pub struct KeyPad {
    pub key_code: Option<Vec<(KeyCode, MenuAction)>>,
    pub gamepad_button: Option<Vec<(GamepadButtonType, MenuAction)>>,
}

/// The default bindings of the given kind. The binding at each place is the
/// default key or button of the action given there, bound to the menu action
/// of that place.
pub fn get_keypad(actions: [MenuAction; 4], action_type: ActionMode) -> (pad: KeyPad)
    ensures
        action_type == ActionMode::KeyCode ==> {
            &&& pad.gamepad_button.is_none()
            &&& pad.key_code matches Some(keys)
            &&& keys@.len() == 4
            &&& forall|i: int|
                0 <= i < 4 ==> #[trigger] keys@[i] == (key_of(actions@[i]), ACTIONS@[i])
        },
        action_type == ActionMode::GamepadButton ==> {
            &&& pad.key_code.is_none()
            &&& pad.gamepad_button matches Some(buttons)
            &&& buttons@.len() == 4
            &&& forall|i: int|
                0 <= i < 4 ==> #[trigger] buttons@[i] == (button_of(actions@[i]), ACTIONS@[i])
        },
{
    match action_type {
        ActionMode::KeyCode => {
            let mut keys: Vec<(KeyCode, MenuAction)> = Vec::new();
            let mut i: usize = 0;
            while i < 4
                invariant
                    i <= 4,
                    keys@.len() == i,
                    forall|k: int|
                        0 <= k < i ==> #[trigger] keys@[k] == (key_of(actions@[k]), ACTIONS@[k]),
                decreases 4 - i,
            {
                keys.push((get_scheme(&actions[i]).0, ACTIONS[i]));
                i = i + 1;
            }
            KeyPad { key_code: Some(keys), gamepad_button: None }
        },
        ActionMode::GamepadButton => {
            let mut buttons: Vec<(GamepadButtonType, MenuAction)> = Vec::new();
            let mut i: usize = 0;
            while i < 4
                invariant
                    i <= 4,
                    buttons@.len() == i,
                    forall|k: int|
                        0 <= k < i ==> #[trigger] buttons@[k] == (
                            button_of(actions@[k]),
                            ACTIONS@[k],
                        ),
                decreases 4 - i,
            {
                buttons.push((get_scheme(&actions[i]).1, ACTIONS[i]));
                i = i + 1;
            }
            KeyPad { key_code: None, gamepad_button: Some(buttons) }
        },
    }
}

} // verus!
