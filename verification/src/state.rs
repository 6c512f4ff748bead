//! The states of the application and what entering one removes.

use crate::components::ForState;
use bevy::ecs::entity::Entity;
use vstd::prelude::*;

verus! {

/// Main state, telling the menu from the game.
#[derive(Debug, Copy, Clone, Hash, PartialEq, Eq, Structural)]
pub enum AppState {
    StartMenu,
    Game,
}

/// Phase of the game. `Invalid` is the phase while the main state is not `Game`.
#[derive(Debug, Copy, Clone, Hash, PartialEq, Eq, Structural)]
pub enum AppGameState {
    Invalid,
    Game,
    Pause,
    GameOver,
}

/// Where the application stands: the main state, the phase of the game, and
/// whether the physics simulation is stepping.
#[derive(Debug, Copy, Clone, PartialEq, Eq, Structural)]
pub struct Flow {
    pub state: AppState,
    pub gamestate: AppGameState,
    pub physics_active: bool,
}

impl Flow {
    /// The phase is `Invalid` exactly outside the game, and the simulation
    /// is suspended exactly during a pause.
    pub open spec fn wf(self) -> bool {
        &&& self.state == AppState::StartMenu <==> self.gamestate == AppGameState::Invalid
        &&& self.physics_active <==> self.gamestate != AppGameState::Pause
    }

    /// Where the application starts: in the start menu, simulation on.
    pub fn new() -> (flow: Flow)
        ensures
            flow == (Flow {
                state: AppState::StartMenu,
                gamestate: AppGameState::Invalid,
                physics_active: true,
            }),
            flow.wf(),
    {
        Flow { state: AppState::StartMenu, gamestate: AppGameState::Invalid, physics_active: true }
    }
}

/// A state that entities can be tagged with. States are told apart by
/// comparing them.
pub trait StateData: Sized {
    /// Whether two states are the same.
    fn same(&self, other: &Self) -> (r: bool)
        ensures
            r == (*self == *other),
    ;
}

impl StateData for AppState {
    fn same(&self, other: &Self) -> (r: bool) {
        *self == *other
    }
}

impl StateData for AppGameState {
    fn same(&self, other: &Self) -> (r: bool) {
        *self == *other
    }
}

/// Whether `states` holds `state`.
pub open spec fn lists<T>(states: Seq<T>, state: T) -> bool {
    exists|k: int| 0 <= k < states.len() && states[k] == state
}

/// Whether a tag lists `state`.
pub fn tag_lists<T: StateData>(tag: &ForState<T>, state: &T) -> (listed: bool)
    ensures
        listed == lists(tag.states@, *state),
{
    let mut i: usize = 0;
    while i < tag.states.len()
        invariant
            i <= tag.states@.len(),
            forall|k: int| 0 <= k < i ==> tag.states@[k] != *state,
        decreases tag.states@.len() - i,
    {
        if tag.states[i].same(state) {
            return true;
        }
        i = i + 1;
    }
    false
}

/// The entities that entering `state` removes: those whose tag does not list
/// it, in order.
pub open spec fn doomed<T>(tagged: Seq<(Entity, ForState<T>)>, state: T) -> Seq<Entity>
    decreases tagged.len(),
{
    if tagged.len() == 0 {
        Seq::empty()
    } else if lists(tagged.last().1.states@, state) {
        doomed(tagged.drop_last(), state)
    } else {
        doomed(tagged.drop_last(), state).push(tagged.last().0)
    }
}

/// Picks the entities to remove, with their children, on entering `state`:
/// every tagged entity whose tag does not list the state, and no other.
pub fn state_enter_despawn<T: StateData>(state: &T, tagged: &Vec<(Entity, ForState<T>)>) -> (gone:
    Vec<Entity>)
    ensures
        gone@ == doomed(tagged@, *state),
{
    let mut gone: Vec<Entity> = Vec::new();
    let mut i: usize = 0;
    while i < tagged.len()
        invariant
            i <= tagged@.len(),
            gone@ == doomed(tagged@.take(i as int), *state),
        decreases tagged@.len() - i,
    {
        proof {
            let next = tagged@.take(i + 1);
            assert(next.drop_last() == tagged@.take(i as int));
            assert(next.last() == tagged@[i as int]);
        }
        if !tag_lists(&tagged[i].1, state) {
            gone.push(tagged[i].0);
        }
        i = i + 1;
    }
    proof {
        assert(tagged@.take(tagged@.len() as int) == tagged@);
    }
    gone
}

} // verus!
