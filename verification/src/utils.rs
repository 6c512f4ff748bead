//! Small systems shared by the states.

use crate::state::AppState;
use bevy::ecs::entity::Entity;
use vstd::prelude::*;

verus! {

/// The marked entities of a list: those whose mark is set, in order.
pub open spec fn marked(entities: Seq<(Entity, bool)>) -> Seq<Entity>
    decreases entities.len(),
{
    if entities.len() == 0 {
        Seq::empty()
    } else if entities.last().1 {
        marked(entities.drop_last()).push(entities.last().0)
    } else {
        marked(entities.drop_last())
    }
}

/// Picks the entities to remove with their children: every entity that
/// carries the mark, and no other.
pub fn cleanup_system(entities: &Vec<(Entity, bool)>) -> (doomed: Vec<Entity>)
    ensures
        doomed@ == marked(entities@),
{
    let mut doomed: Vec<Entity> = Vec::new();
    let mut i: usize = 0;
    while i < entities.len()
        invariant
            i <= entities@.len(),
            doomed@ == marked(entities@.take(i as int)),
        decreases entities@.len() - i,
    {
        proof {
            let next = entities@.take(i + 1);
            assert(next.drop_last() == entities@.take(i as int));
            assert(next.last() == entities@[i as int]);
        }
        if entities[i].1 {
            doomed.push(entities[i].0);
        }
        i = i + 1;
    }
    proof {
        assert(entities@.take(entities@.len() as int) == entities@);
    }
    doomed
}

/// Leaves for the start menu when the escape key was just pressed. Returns
/// whether the key press was used up and is to be cleared.
pub fn escape_system(app_state: &mut AppState, escape_just_pressed: bool) -> (consumed: bool)
    ensures
        consumed == escape_just_pressed,
        *final(app_state) == if escape_just_pressed {
            AppState::StartMenu
        } else {
            *old(app_state)
        },
{
    if escape_just_pressed {
        *app_state = AppState::StartMenu;
        true
    } else {
        false
    }
}

} // verus!
