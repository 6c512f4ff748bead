//! Guardians: their sizes, their spawn cadence, and what an asteroid does to
//! them.

use crate::arena::{
    cadence, cadence_step, draw_edge_launch, draw_split, edge_launch, is_splittable_at, spawn_due,
    split_launch, splittable_at, Arena, Launch,
};
use crate::components::{Damage, ForState};
use crate::config::{GUARDIAN_SPIN, MAX_GUARDIAN_COUNT, UNIT};
use crate::explosion::{ExplosionKind, SpawnExplosionEvent};
use crate::random;
use crate::scoring::Score;
use crate::state::{AppGameState, AppState};
use bevy::ecs::entity::Entity;
use vstd::prelude::*;

verus! {

/// Collider radii of the three guardian sizes, in thousandths of a unit.
#[derive(Clone, Copy, Debug, PartialEq, Eq, Structural)]
pub struct GuardianRadius {
    pub big: i64,
    pub med: i64,
    pub small: i64,
}

impl GuardianRadius {
    /// Half the width of each guardian sprite.
    pub open spec fn spec_sprites() -> GuardianRadius {
        GuardianRadius { big: 128_000, med: 79_000, small: 48_500 }
    }

    /// Half the width of each guardian sprite.
    #[verifier::when_used_as_spec(spec_sprites)]
    pub fn sprites() -> (r: GuardianRadius)
        ensures
            r == Self::spec_sprites(),
    {
        GuardianRadius { big: 128_000, med: 79_000, small: 48_500 }
    }
}

/// A request to put a guardian into the arena.
#[derive(Clone, Copy, Debug, PartialEq, Eq, Structural)]
pub struct GuardianSpawnEvent {
    pub size: GuardianSize,
    pub x: i64,
    pub y: i64,
    pub vx: i64,
    pub vy: i64,
    pub angvel: i64,
}

/// An asteroid began touching a guardian.
pub struct AsteroidGuardianContactEvent {
    pub asteroid: Entity,
    pub guardian: Entity,
}

#[derive(Debug, Clone, Copy, PartialEq, Eq, Structural)]
pub enum GuardianSize {
    Big,
    Medium,
    Small,
}

impl GuardianSize {
    /// Score marked when a guardian of this size gets destroyed.
    pub open spec fn spec_score(self) -> u32 {
        Score::Guardian(self).spec_score()
    }

    /// Score marked when a guardian of this size gets destroyed.
    #[verifier::when_used_as_spec(spec_score)]
    pub fn score(self) -> (points: u32)
        ensures
            points == self.spec_score(),
    {
        match self {
            Self::Big => Score::Guardian(Self::Big).score(),
            Self::Medium => Score::Guardian(Self::Medium).score(),
            Self::Small => Score::Guardian(Self::Small).score(),
        }
    }

    /// The size of the fragments a guardian of this size splits into and the
    /// radius, in thousandths of a unit, within which they appear; `None` for
    /// a size that does not split.
    pub open spec fn spec_split(self) -> Option<(GuardianSize, i64)> {
        match self {
            GuardianSize::Big => Some((GuardianSize::Medium, 10_000i64)),
            GuardianSize::Medium => Some((GuardianSize::Small, 5_000i64)),
            GuardianSize::Small => None,
        }
    }

    /// Whether a guardian of this size splits on destruction, and if so into
    /// which size and within which radius.
    #[verifier::when_used_as_spec(spec_split)]
    pub fn split(self) -> (r: Option<(GuardianSize, i64)>)
        ensures
            r == self.spec_split(),
    {
        match self {
            Self::Big => Some((Self::Medium, 10 * UNIT)),
            Self::Medium => Some((Self::Small, 5 * UNIT)),
            Self::Small => None,
        }
    }
}

/// Marks a body as a guardian of some size.
#[derive(Clone, Copy, Debug, PartialEq, Eq, Structural)]
pub struct Guardian {
    pub size: GuardianSize,
}

/// The spawn request for a guardian of `size` launched as `l` says.
pub open spec fn guardian_launched(size: GuardianSize, l: Launch) -> GuardianSpawnEvent {
    GuardianSpawnEvent { size, x: l.x, y: l.y, vx: l.vx, vy: l.vy, angvel: l.angvel }
}

/// The launch that a spawn request carries.
pub open spec fn launch_of(event: GuardianSpawnEvent) -> Launch {
    Launch { x: event.x, y: event.y, vx: event.vx, vy: event.vy, angvel: event.angvel }
}

/// One spawner tick for guardians. The guardian timer advances by `delta`
/// nanoseconds. Nothing more happens until it has run out and play is active.
/// Then it is reset and, unless the arena already holds `MAX_GUARDIAN_COUNT`
/// guardians or more, its period shrinks and a big guardian is requested at
/// a random point of the top or left edge.
pub fn arena_guardians(
    arena: &mut Arena,
    delta: u64,
    gamestate: AppGameState,
    n_guardian: usize,
) -> (spawn: Option<GuardianSpawnEvent>)
    requires
        old(arena).wf(),
    ensures
        final(arena).wf(),
        final(arena).score == old(arena).score,
        final(arena).asteroid_spawn_timer == old(arena).asteroid_spawn_timer,
        cadence_step(
            old(arena).guardian_spawn_timer,
            final(arena).guardian_spawn_timer,
            delta as nat,
            gamestate == AppGameState::Game,
            n_guardian as nat,
            MAX_GUARDIAN_COUNT as nat,
        ),
        spawn.is_some() == spawn_due(
            old(arena).guardian_spawn_timer,
            delta as nat,
            gamestate == AppGameState::Game,
            n_guardian as nat,
            MAX_GUARDIAN_COUNT as nat,
        ),
        spawn matches Some(event) ==> event.size == GuardianSize::Big && edge_launch(
            launch_of(event),
            GUARDIAN_SPIN as int,
        ),
{
    let active = gamestate == AppGameState::Game;
    let due = cadence(&mut arena.guardian_spawn_timer, delta, active, n_guardian, MAX_GUARDIAN_COUNT);
    if !due {
        return None;
    }
    let mut rng = random::thread_rng();
    let l = draw_edge_launch(&mut rng, GUARDIAN_SPIN);
    Some(
        GuardianSpawnEvent {
            size: GuardianSize::Big,
            x: l.x,
            y: l.y,
            vx: l.vx,
            vy: l.vy,
            angvel: l.angvel,
        },
    )
}

/// What a new guardian is made of: its marker, the damage it does, the state
/// it lives in, the radius of its round collider, and where it is and how it
/// moves. Lengths are in thousandths of a unit.
pub struct GuardianBundle {
    pub guardian: Guardian,
    pub damage: Damage,
    pub for_state: ForState<AppState>,
    pub radius: i64,
    pub x: i64,
    pub y: i64,
    pub z: i64,
    pub vx: i64,
    pub vy: i64,
    pub angvel: i64,
}

/// Collider radius of a guardian of the given size.
pub open spec fn guardian_radius(size: GuardianSize) -> i64 {
    match size {
        GuardianSize::Big => GuardianRadius::spec_sprites().big,
        GuardianSize::Medium => GuardianRadius::spec_sprites().med,
        GuardianSize::Small => GuardianRadius::spec_sprites().small,
    }
}

/// A quarter of a coordinate, rounded toward zero.
pub open spec fn quarter(v: int) -> int {
    if v >= 0 {
        v / 4
    } else {
        -((-v) / 4)
    }
}

/// Answers a spawn request: the guardian appears at a quarter of the
/// requested distance from the arena's centre, one layer above the
/// background, and at rest whatever velocity was asked for. It does no
/// damage and lives only in the `Game` state.
pub fn spawn_guardian_event(event: &GuardianSpawnEvent) -> (bundle: GuardianBundle)
    ensures
        bundle.guardian.size == event.size,
        bundle.damage.value == 0,
        bundle.for_state.states@ == seq![AppState::Game],
        bundle.radius == guardian_radius(event.size),
        bundle.x == quarter(event.x as int),
        bundle.y == quarter(event.y as int),
        bundle.z == UNIT,
        bundle.vx == 0,
        bundle.vy == 0,
        bundle.angvel == 0,
{
    let radii = GuardianRadius::sprites();
    let radius: i64 = match event.size {
        GuardianSize::Big => radii.big,
        GuardianSize::Medium => radii.med,
        GuardianSize::Small => radii.small,
    };
    let mut states: Vec<AppState> = Vec::new();
    states.push(AppState::Game);
    GuardianBundle {
        guardian: Guardian { size: event.size },
        damage: Damage { value: 0u32 },
        for_state: ForState { states },
        radius,
        x: event.x / 4,
        y: event.y / 4,
        z: UNIT,
        vx: 0,
        vy: 0,
        angvel: 0,
    }
}

/// What is known of the guardian of a contact when the contact is handled.
#[derive(Clone, Copy, Debug, PartialEq, Eq, Structural)]
pub struct GuardianBody {
    pub guardian: Guardian,
    pub x: i64,
    pub y: i64,
    pub angvel: i64,
}

/// What destroying a guardian asks for: an explosion, the fragments to spawn,
/// and the two entities to remove.
pub struct GuardianDamage {
    pub explosion: SpawnExplosionEvent,
    pub spawns: Vec<GuardianSpawnEvent>,
    pub asteroid: Entity,
    pub guardian: Entity,
}

/// The fragments that a destroyed guardian may leave: none for a size that
/// does not split; else one to three of the next size, each within the split
/// radius of the parent and with the parent's spin.
pub open spec fn guardian_fan_out(spawns: Seq<GuardianSpawnEvent>, body: GuardianBody) -> bool {
    match body.guardian.size.spec_split() {
        None => spawns.len() == 0,
        Some((size, radius)) => {
            &&& 1 <= spawns.len() <= 3
            &&& forall|i: int|
                0 <= i < spawns.len() ==> {
                    &&& (#[trigger] spawns[i]).size == size
                    &&& split_launch(
                        launch_of(spawns[i]),
                        body.x as int,
                        body.y as int,
                        body.angvel as int,
                        radius as int,
                    )
                }
        },
    }
}

/// A destroyed big guardian leaves one to three medium ones, each within ten
/// units of it on both axes and spinning as it did; a medium one leaves one
/// to three small ones within five units; a small one leaves nothing.
pub proof fn lemma_guardian_fan_out(spawns: Seq<GuardianSpawnEvent>, body: GuardianBody)
    requires
        guardian_fan_out(spawns, body),
    ensures
        body.guardian.size == GuardianSize::Small ==> spawns.len() == 0,
        body.guardian.size != GuardianSize::Small ==> 1 <= spawns.len() <= 3,
        body.guardian.size == GuardianSize::Big ==> forall|i: int|
            0 <= i < spawns.len() ==> {
                &&& (#[trigger] spawns[i]).size == GuardianSize::Medium
                &&& -10 * UNIT <= spawns[i].x - body.x <= 10 * UNIT
                &&& -10 * UNIT <= spawns[i].y - body.y <= 10 * UNIT
                &&& spawns[i].angvel == body.angvel
            },
        body.guardian.size == GuardianSize::Medium ==> forall|i: int|
            0 <= i < spawns.len() ==> {
                &&& (#[trigger] spawns[i]).size == GuardianSize::Small
                &&& -5 * UNIT <= spawns[i].x - body.x <= 5 * UNIT
                &&& -5 * UNIT <= spawns[i].y - body.y <= 5 * UNIT
                &&& spawns[i].angvel == body.angvel
            },
{
}

/// The inputs on which handling an asteroid-guardian contact stays within
/// machine integers: the score has room for the points, and the fragments'
/// positions can be computed.
pub open spec fn guardian_damage_fits(score: u32, body: GuardianBody) -> bool {
    &&& score + body.guardian.size.spec_score() <= u32::MAX
    &&& body.guardian.size.spec_split() matches Some((_, radius)) ==> splittable_at(
        body.x,
        body.y,
        radius,
    )
}

/// Tells whether an asteroid contact with the given guardian can be handled
/// at the given score.
pub fn is_guardian_damage_fit(score: u32, body: &GuardianBody) -> (ok: bool)
    ensures
        ok == guardian_damage_fits(score, *body),
{
    let room = score.checked_add(body.guardian.size.score()).is_some();
    match body.guardian.size.split() {
        Some((_, radius)) => room && is_splittable_at(body.x, body.y, radius),
        None => room,
    }
}

/// Handles one asteroid-guardian contact. `asteroid` is the asteroid's
/// position and `guardian` what is known of the guardian; either is `None` if
/// that entity is already gone, and the contact is then skipped. Otherwise
/// the guardian is destroyed as an asteroid is by a laser: the score grows by
/// the guardian's points, an explosion is requested where the asteroid is,
/// the guardian splits as its size says, and both entities are to be removed.
pub fn guardian_damage(
    arena: &mut Arena,
    event: &AsteroidGuardianContactEvent,
    asteroid: Option<(i64, i64)>,
    guardian: Option<GuardianBody>,
) -> (outcome: Option<GuardianDamage>)
    requires
        asteroid.is_some() && guardian.is_some() ==> guardian_damage_fits(
            old(arena).score,
            guardian.unwrap(),
        ),
    ensures
        final(arena).asteroid_spawn_timer == old(arena).asteroid_spawn_timer,
        final(arena).guardian_spawn_timer == old(arena).guardian_spawn_timer,
        outcome.is_some() == (asteroid.is_some() && guardian.is_some()),
        final(arena).score >= old(arena).score,
        outcome.is_none() ==> final(arena).score == old(arena).score,
        outcome matches Some(damage) ==> {
            &&& final(arena).score == old(arena).score + guardian.unwrap().guardian.size.spec_score()
            &&& damage.explosion == (SpawnExplosionEvent {
                kind: ExplosionKind::AsteroidOnGuardian,
                x: asteroid.unwrap().0,
                y: asteroid.unwrap().1,
            })
            &&& guardian_fan_out(damage.spawns@, guardian.unwrap())
            &&& damage.asteroid == event.asteroid
            &&& damage.guardian == event.guardian
        },
{
    let (at, body) = match (asteroid, guardian) {
        (Some(at), Some(body)) => (at, body),
        _ => { return None; },
    };
    arena.score = arena.score + body.guardian.size.score();
    let explosion = SpawnExplosionEvent {
        kind: ExplosionKind::AsteroidOnGuardian,
        x: at.0,
        y: at.1,
    };
    let mut spawns: Vec<GuardianSpawnEvent> = Vec::new();
    if let Some((size, radius)) = body.guardian.size.split() {
        let mut rng = random::thread_rng();
        let launches = draw_split(&mut rng, body.x, body.y, body.angvel, radius);
        let mut i: usize = 0;
        while i < launches.len()
            invariant
                i <= launches@.len(),
                spawns@.len() == i,
                forall|k: int|
                    0 <= k < i ==> #[trigger] spawns@[k] == guardian_launched(size, launches@[k]),
            decreases launches@.len() - i,
        {
            let l = launches[i];
            spawns.push(
                GuardianSpawnEvent {
                    size,
                    x: l.x,
                    y: l.y,
                    vx: l.vx,
                    vy: l.vy,
                    angvel: l.angvel,
                },
            );
            i = i + 1;
        }
    }
    Some(GuardianDamage { explosion, spawns, asteroid: event.asteroid, guardian: event.guardian })
}

} // verus!
