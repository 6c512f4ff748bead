//! Asteroids: their sizes, their spawn cadence, and what a laser does to them.

use crate::arena::{
    cadence, cadence_step, draw_edge_launch, draw_split, edge_launch, is_splittable_at, spawn_due,
    split_launch, splittable_at, Arena, Launch,
};
use crate::components::{Damage, ForState};
use crate::config::{ASTEROID_SPIN, MAX_ASTEROID_COUNT, UNIT};
use crate::explosion::{ExplosionKind, SpawnExplosionEvent};
use crate::random;
use crate::state::{AppGameState, AppState};
use bevy::ecs::entity::Entity;
use vstd::prelude::*;

verus! {

/// A request to put an asteroid into the arena.
#[derive(Clone, Copy, Debug, PartialEq, Eq, Structural)]
pub struct AsteroidSpawnEvent {
    pub size: AsteroidSize,
    pub x: i64,
    pub y: i64,
    pub vx: i64,
    pub vy: i64,
    pub angvel: i64,
}

/// A laser began touching an asteroid.
pub struct LaserAsteroidContactEvent {
    pub laser: Entity,
    pub asteroid: Entity,
}

#[derive(Debug, Clone, Copy, PartialEq, Eq, Structural)]
pub enum AsteroidSize {
    Big,
    Medium,
    Small,
}

impl AsteroidSize {
    /// Score marked when destroying an asteroid of this size.
    pub open spec fn spec_score(&self) -> u32 {
        match self {
            AsteroidSize::Big => 40u32,
            AsteroidSize::Medium => 30u32,
            AsteroidSize::Small => 10u32,
        }
    }

    /// Score marked when destroying an asteroid of this size.
    #[verifier::when_used_as_spec(spec_score)]
    pub fn score(&self) -> (points: u32)
        ensures
            points == self.spec_score(),
    {
        match self {
            AsteroidSize::Big => 40u32,
            AsteroidSize::Medium => 30u32,
            AsteroidSize::Small => 10u32,
        }
    }

    /// The size of the fragments an asteroid of this size splits into and the
    /// radius, in thousandths of a unit, within which they appear; `None` for
    /// a size that does not split.
    pub open spec fn spec_split(&self) -> Option<(AsteroidSize, i64)> {
        match self {
            AsteroidSize::Big => Some((AsteroidSize::Medium, 10_000i64)),
            AsteroidSize::Medium => Some((AsteroidSize::Small, 5_000i64)),
            AsteroidSize::Small => None,
        }
    }

    /// Whether an asteroid of this size splits on destruction, and if so into
    /// which size and within which radius.
    #[verifier::when_used_as_spec(spec_split)]
    pub fn split(&self) -> (r: Option<(AsteroidSize, i64)>)
        ensures
            r == self.spec_split(),
    {
        match self {
            AsteroidSize::Big => Some((AsteroidSize::Medium, 10 * UNIT)),
            AsteroidSize::Medium => Some((AsteroidSize::Small, 5 * UNIT)),
            AsteroidSize::Small => None,
        }
    }
}

/// Marks a body as an asteroid of some size.
#[derive(Clone, Copy, Debug, PartialEq, Eq, Structural)]
pub struct Asteroid {
    pub size: AsteroidSize,
}

/// The spawn request for an asteroid of `size` launched as `l` says.
pub open spec fn asteroid_launched(size: AsteroidSize, l: Launch) -> AsteroidSpawnEvent {
    AsteroidSpawnEvent { size, x: l.x, y: l.y, vx: l.vx, vy: l.vy, angvel: l.angvel }
}

/// The launch that a spawn request carries.
pub open spec fn launch_of(event: AsteroidSpawnEvent) -> Launch {
    Launch { x: event.x, y: event.y, vx: event.vx, vy: event.vy, angvel: event.angvel }
}

/// One spawner tick for asteroids. The asteroid timer advances by `delta`
/// nanoseconds. Nothing more happens until it has run out and play is active.
/// Then it is reset and, unless the arena already holds `MAX_ASTEROID_COUNT`
/// asteroids or more, its period shrinks and a big asteroid is requested at
/// a random point of the top or left edge.
pub fn arena_asteroids(
    arena: &mut Arena,
    delta: u64,
    gamestate: AppGameState,
    n_asteroid: usize,
) -> (spawn: Option<AsteroidSpawnEvent>)
    requires
        old(arena).wf(),
    ensures
        final(arena).wf(),
        final(arena).score == old(arena).score,
        final(arena).guardian_spawn_timer == old(arena).guardian_spawn_timer,
        cadence_step(
            old(arena).asteroid_spawn_timer,
            final(arena).asteroid_spawn_timer,
            delta as nat,
            gamestate == AppGameState::Game,
            n_asteroid as nat,
            MAX_ASTEROID_COUNT as nat,
        ),
        spawn.is_some() == spawn_due(
            old(arena).asteroid_spawn_timer,
            delta as nat,
            gamestate == AppGameState::Game,
            n_asteroid as nat,
            MAX_ASTEROID_COUNT as nat,
        ),
        spawn matches Some(event) ==> event.size == AsteroidSize::Big && edge_launch(
            launch_of(event),
            ASTEROID_SPIN as int,
        ),
{
    let active = gamestate == AppGameState::Game;
    let due = cadence(&mut arena.asteroid_spawn_timer, delta, active, n_asteroid, MAX_ASTEROID_COUNT);
    if !due {
        return None;
    }
    let mut rng = random::thread_rng();
    let l = draw_edge_launch(&mut rng, ASTEROID_SPIN);
    Some(
        AsteroidSpawnEvent {
            size: AsteroidSize::Big,
            x: l.x,
            y: l.y,
            vx: l.vx,
            vy: l.vy,
            angvel: l.angvel,
        },
    )
}

/// What a new asteroid is made of: its marker, the damage it does, the state
/// it lives in, the radius of its round collider, and where it is and how it
/// moves. Lengths are in thousandths of a unit.
pub struct AsteroidBundle {
    pub asteroid: Asteroid,
    pub damage: Damage,
    pub for_state: ForState<AppState>,
    pub radius: i64,
    pub x: i64,
    pub y: i64,
    pub z: i64,
    pub vx: i64,
    pub vy: i64,
    pub angvel: i64,
}

/// Collider radius of an asteroid: half the width of its sprite.
pub open spec fn asteroid_radius(size: AsteroidSize) -> i64 {
    match size {
        AsteroidSize::Big => 50_500,
        AsteroidSize::Medium => 21_500,
        AsteroidSize::Small => 14_000,
    }
}

/// Answers a spawn request: the asteroid appears where and as the request
/// says, one layer above the background, does one point of damage, and lives
/// only in the `Game` state.
pub fn spawn_asteroid_event(event: &AsteroidSpawnEvent) -> (bundle: AsteroidBundle)
    ensures
        bundle.asteroid.size == event.size,
        bundle.damage.value == 1,
        bundle.for_state.states@ == seq![AppState::Game],
        bundle.radius == asteroid_radius(event.size),
        bundle.x == event.x,
        bundle.y == event.y,
        bundle.z == UNIT,
        bundle.vx == event.vx,
        bundle.vy == event.vy,
        bundle.angvel == event.angvel,
{
    let radius: i64 = match event.size {
        AsteroidSize::Big => 50_500,
        AsteroidSize::Medium => 21_500,
        AsteroidSize::Small => 14_000,
    };
    let mut states: Vec<AppState> = Vec::new();
    states.push(AppState::Game);
    AsteroidBundle {
        asteroid: Asteroid { size: event.size },
        damage: Damage { value: 1 },
        for_state: ForState { states },
        radius,
        x: event.x,
        y: event.y,
        z: UNIT,
        vx: event.vx,
        vy: event.vy,
        angvel: event.angvel,
    }
}

/// What is known of the asteroid of a contact when the contact is handled.
#[derive(Clone, Copy, Debug, PartialEq, Eq, Structural)]
pub struct AsteroidBody {
    pub asteroid: Asteroid,
    pub x: i64,
    pub y: i64,
    pub angvel: i64,
}

/// What destroying an asteroid asks for: an explosion, the fragments to
/// spawn, and the two entities to remove.
pub struct AsteroidDamage {
    pub explosion: SpawnExplosionEvent,
    pub spawns: Vec<AsteroidSpawnEvent>,
    pub laser: Entity,
    pub asteroid: Entity,
}

/// The fragments that a destroyed asteroid may leave: none for a size that
/// does not split; else one to three of the next size, each within the split
/// radius of the parent and with the parent's spin.
pub open spec fn asteroid_fan_out(spawns: Seq<AsteroidSpawnEvent>, body: AsteroidBody) -> bool {
    match body.asteroid.size.spec_split() {
        None => spawns.len() == 0,
        Some((size, radius)) => {
            &&& 1 <= spawns.len() <= 3
            &&& forall|i: int|
                0 <= i < spawns.len() ==> {
                    &&& (#[trigger] spawns[i]).size == size
                    &&& split_launch(
                        launch_of(spawns[i]),
                        body.x as int,
                        body.y as int,
                        body.angvel as int,
                        radius as int,
                    )
                }
        },
    }
}

/// A destroyed big asteroid leaves one to three medium ones, each within ten
/// units of it on both axes and spinning as it did; a medium one leaves one
/// to three small ones within five units; a small one leaves nothing.
pub proof fn lemma_asteroid_fan_out(spawns: Seq<AsteroidSpawnEvent>, body: AsteroidBody)
    requires
        asteroid_fan_out(spawns, body),
    ensures
        body.asteroid.size == AsteroidSize::Small ==> spawns.len() == 0,
        body.asteroid.size != AsteroidSize::Small ==> 1 <= spawns.len() <= 3,
        body.asteroid.size == AsteroidSize::Big ==> forall|i: int|
            0 <= i < spawns.len() ==> {
                &&& (#[trigger] spawns[i]).size == AsteroidSize::Medium
                &&& -10 * UNIT <= spawns[i].x - body.x <= 10 * UNIT
                &&& -10 * UNIT <= spawns[i].y - body.y <= 10 * UNIT
                &&& spawns[i].angvel == body.angvel
            },
        body.asteroid.size == AsteroidSize::Medium ==> forall|i: int|
            0 <= i < spawns.len() ==> {
                &&& (#[trigger] spawns[i]).size == AsteroidSize::Small
                &&& -5 * UNIT <= spawns[i].x - body.x <= 5 * UNIT
                &&& -5 * UNIT <= spawns[i].y - body.y <= 5 * UNIT
                &&& spawns[i].angvel == body.angvel
            },
{
}

/// The inputs on which handling a laser contact stays within machine
/// integers: the score has room for the points, and the fragments' positions
/// can be computed.
pub open spec fn asteroid_damage_fits(score: u32, body: AsteroidBody) -> bool {
    &&& score + body.asteroid.size.spec_score() <= u32::MAX
    &&& body.asteroid.size.spec_split() matches Some((_, radius)) ==> splittable_at(
        body.x,
        body.y,
        radius,
    )
}

/// Tells whether a laser contact with the given asteroid can be handled at the
/// given score.
pub fn is_asteroid_damage_fit(score: u32, body: &AsteroidBody) -> (ok: bool)
    ensures
        ok == asteroid_damage_fits(score, *body),
{
    let room = score.checked_add(body.asteroid.size.score()).is_some();
    match body.asteroid.size.split() {
        Some((_, radius)) => room && is_splittable_at(body.x, body.y, radius),
        None => room,
    }
}

/// Handles one laser-asteroid contact. `laser` is the laser's position and
/// `asteroid` what is known of the asteroid; either is `None` if that entity
/// is already gone, and the contact is then skipped. Otherwise the score
/// grows by the asteroid's points, an explosion is requested where the laser
/// is, the asteroid splits as its size says, and both entities are to be
/// removed.
pub fn asteroid_damage(
    arena: &mut Arena,
    event: &LaserAsteroidContactEvent,
    laser: Option<(i64, i64)>,
    asteroid: Option<AsteroidBody>,
) -> (outcome: Option<AsteroidDamage>)
    requires
        laser.is_some() && asteroid.is_some() ==> asteroid_damage_fits(
            old(arena).score,
            asteroid.unwrap(),
        ),
    ensures
        final(arena).asteroid_spawn_timer == old(arena).asteroid_spawn_timer,
        final(arena).guardian_spawn_timer == old(arena).guardian_spawn_timer,
        outcome.is_some() == (laser.is_some() && asteroid.is_some()),
        final(arena).score >= old(arena).score,
        outcome.is_none() ==> final(arena).score == old(arena).score,
        outcome matches Some(damage) ==> {
            &&& final(arena).score == old(arena).score + asteroid.unwrap().asteroid.size.spec_score()
            &&& damage.explosion == (SpawnExplosionEvent {
                kind: ExplosionKind::LaserOnAsteroid,
                x: laser.unwrap().0,
                y: laser.unwrap().1,
            })
            &&& asteroid_fan_out(damage.spawns@, asteroid.unwrap())
            &&& damage.laser == event.laser
            &&& damage.asteroid == event.asteroid
        },
{
    let (at, body) = match (laser, asteroid) {
        (Some(at), Some(body)) => (at, body),
        _ => { return None; },
    };
    arena.score = arena.score + body.asteroid.size.score();
    let explosion = SpawnExplosionEvent { kind: ExplosionKind::LaserOnAsteroid, x: at.0, y: at.1 };
    let mut spawns: Vec<AsteroidSpawnEvent> = Vec::new();
    if let Some((size, radius)) = body.asteroid.size.split() {
        let mut rng = random::thread_rng();
        let launches = draw_split(&mut rng, body.x, body.y, body.angvel, radius);
        let mut i: usize = 0;
        while i < launches.len()
            invariant
                i <= launches@.len(),
                spawns@.len() == i,
                forall|k: int|
                    0 <= k < i ==> #[trigger] spawns@[k] == asteroid_launched(size, launches@[k]),
            decreases launches@.len() - i,
        {
            let l = launches[i];
            spawns.push(
                AsteroidSpawnEvent {
                    size,
                    x: l.x,
                    y: l.y,
                    vx: l.vx,
                    vy: l.vy,
                    angvel: l.angvel,
                },
            );
            i = i + 1;
        }
    }
    Some(AsteroidDamage { explosion, spawns, laser: event.laser, asteroid: event.asteroid })
}

} // verus!
