//! The head-up display: which life counters show.

use crate::components::UiLife;
use crate::config::START_LIFE;
use vstd::prelude::*;

verus! {

/// The life counters of the display: one for each starting life, the first
/// shown while at least one life is left, the next while at least two, and so
/// on.
pub fn hud_spawn() -> (counters: Vec<UiLife>)
    ensures
        counters@.len() == START_LIFE,
        forall|i: int| 0 <= i < counters@.len() ==> (#[trigger] counters@[i]).min == i + 1,
{
    let mut counters: Vec<UiLife> = Vec::new();
    let mut i: u32 = 1;
    while i <= START_LIFE
        invariant
            1 <= i <= START_LIFE + 1,
            counters@.len() == i - 1,
            forall|k: int| 0 <= k < counters@.len() ==> (#[trigger] counters@[k]).min == k + 1,
        decreases START_LIFE + 1 - i,
    {
        counters.push(UiLife { min: i });
        i = i + 1;
    }
    counters
}

/// The lives that the display shows: those of the last listed ship of player
/// one, or none if there is no such ship. A ship is listed as its player id
/// and its lives.
pub open spec fn shown_life(ships: Seq<(u32, u32)>) -> u32
    decreases ships.len(),
{
    if ships.len() == 0 {
        0
    } else if ships.last().0 == 1 {
        ships.last().1
    } else {
        shown_life(ships.drop_last())
    }
}

/// Decides for each life counter whether it shows: a counter shows while the
/// ship of player one has at least as many lives as the counter asks for.
pub fn hud_score_system(ships: &Vec<(u32, u32)>, counters: &Vec<UiLife>) -> (visible: Vec<bool>)
    ensures
        visible@.len() == counters@.len(),
        forall|i: int|
            0 <= i < counters@.len() ==> #[trigger] visible@[i] == (shown_life(ships@)
                >= counters@[i].min),
{
    let mut life: u32 = 0u32;
    let mut j: usize = 0;
    while j < ships.len()
        invariant
            j <= ships@.len(),
            life == shown_life(ships@.take(j as int)),
        decreases ships@.len() - j,
    {
        proof {
            let next = ships@.take(j + 1);
            assert(next.drop_last() == ships@.take(j as int));
            assert(next.last() == ships@[j as int]);
        }
        if ships[j].0 == 1u32 {
            life = ships[j].1;
        }
        j = j + 1;
    }
    proof {
        assert(ships@.take(ships@.len() as int) == ships@);
    }
    let mut visible: Vec<bool> = Vec::new();
    let mut i: usize = 0;
    while i < counters.len()
        invariant
            i <= counters@.len(),
            visible@.len() == i,
            forall|k: int| 0 <= k < i ==> #[trigger] visible@[k] == (life >= counters@[k].min),
        decreases counters@.len() - i,
    {
        visible.push(life >= counters[i].min);
        i = i + 1;
    }
    visible
}

} // verus!
