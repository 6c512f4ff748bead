//! The arena: its score and spawn timers, the wrap-around rule for moving
//! bodies, and the spawn cadence shared by asteroids and guardians.

use crate::clock;
use crate::clock::{countdown, ticked, timer_duration, timer_elapsed, timer_finished};
use crate::config::{
    ARENA_HEIGHT, ARENA_WIDTH, ASTEROID_SPAWN_PERIOD, GUARDIAN_SPAWN_PERIOD, MIN_SPAWN_PERIOD, UNIT,
};
use crate::enums::Updated;
use crate::random;
use bevy::time::Timer;
use rand::rngs::ThreadRng;
use vstd::prelude::*;

verus! {

/// Session state of one game: the score and the two spawn timers.
pub struct Arena {
    pub asteroid_spawn_timer: Timer,
    pub guardian_spawn_timer: Timer,
    pub score: u32,
}

impl Arena {
    /// Both spawn timers are running one-shot countdowns.
    pub open spec fn wf(&self) -> bool {
        &&& countdown(self.asteroid_spawn_timer)
        &&& countdown(self.guardian_spawn_timer)
    }

    /// Tells whether the arena is well-formed.
    pub fn is_wf(&self) -> (ok: bool)
        ensures
            ok == self.wf(),
    {
        clock::is_countdown(&self.asteroid_spawn_timer) && clock::is_countdown(
            &self.guardian_spawn_timer,
        )
    }
}

/// The arena of a game that starts: no score, the asteroid timer at five
/// seconds and the guardian timer at eight, both untouched.
pub fn spawn_arena() -> (arena: Arena)
    ensures
        arena.wf(),
        arena.score == 0,
        timer_duration(arena.asteroid_spawn_timer) == ASTEROID_SPAWN_PERIOD,
        timer_duration(arena.guardian_spawn_timer) == GUARDIAN_SPAWN_PERIOD,
        timer_elapsed(arena.asteroid_spawn_timer) == 0,
        timer_elapsed(arena.guardian_spawn_timer) == 0,
        !timer_finished(arena.asteroid_spawn_timer),
        !timer_finished(arena.guardian_spawn_timer),
{
    Arena {
        asteroid_spawn_timer: clock::once(ASTEROID_SPAWN_PERIOD),
        guardian_spawn_timer: clock::once(GUARDIAN_SPAWN_PERIOD),
        score: 0u32,
    }
}

/// Where a body on one axis is after the wrap rule: past a half-extent and
/// still heading outward it reappears at the opposite half-extent; anywhere
/// else, or heading back in, it stays.
pub open spec fn wrapped(position: int, velocity: int, half_extent: int) -> int {
    if position < -half_extent && velocity < 0 {
        half_extent
    } else if position > half_extent && velocity > 0 {
        -half_extent
    } else {
        position
    }
}

/// A body past the upper half-extent wraps to the lower one if it moves
/// outward and stays where it is if it moves inward.
pub proof fn lemma_wrap_outward_only(position: int, velocity: int, half_extent: int)
    requires
        0 <= half_extent < position,
    ensures
        velocity > 0 ==> wrapped(position, velocity, half_extent) == -half_extent,
        velocity <= 0 ==> wrapped(position, velocity, half_extent) == position,
{
}

/// The wrap rule does not act twice: where it has put a body, it leaves it.
pub proof fn lemma_wrap_settles(position: int, velocity: int, half_extent: int)
    requires
        0 <= half_extent,
    ensures
        wrapped(wrapped(position, velocity, half_extent), velocity, half_extent) == wrapped(
            position,
            velocity,
            half_extent,
        ),
{
}

/// The wrap rule on one axis.
pub fn wrap_axis(position: i64, velocity: i64, half_extent: i64) -> (r: i64)
    requires
        half_extent > i64::MIN,
    ensures
        r == wrapped(position as int, velocity as int, half_extent as int),
{
    if position < -half_extent && velocity < 0 {
        half_extent
    } else if position > half_extent && velocity > 0 {
        -half_extent
    } else {
        position
    }
}

/// One tick of the wrap rule for a body of the arena, each axis by itself.
/// Returns the position after the tick and whether it changed.
pub fn movement(x: i64, y: i64, vx: i64, vy: i64) -> (r: (i64, i64, Updated))
    ensures
        r.0 == wrapped(x as int, vx as int, ARENA_WIDTH / 2),
        r.1 == wrapped(y as int, vy as int, ARENA_HEIGHT / 2),
        r.2.as_bool() == (r.0 != x || r.1 != y),
{
    let half_width: i64 = ARENA_WIDTH / 2;
    let half_height: i64 = ARENA_HEIGHT / 2;
    let nx = wrap_axis(x, vx, half_width);
    let ny = wrap_axis(y, vy, half_height);
    (nx, ny, Updated::new(nx != x || ny != y))
}

/// A spawn period after one spawn: four fifths of it, but no shorter than
/// the minimum period.
pub open spec fn shrunk(period: nat) -> nat {
    if period * 4 / 5 >= MIN_SPAWN_PERIOD {
        period * 4 / 5
    } else {
        MIN_SPAWN_PERIOD as nat
    }
}

/// Whether a running countdown is finished once `delta` more nanoseconds
/// have been ticked into it.
pub open spec fn expires(t: Timer, delta: nat) -> bool {
    timer_finished(t) || timer_elapsed(t) + delta >= timer_duration(t)
}

/// What one spawner tick does to its timer. The timer always advances. If it
/// has not run out, or play is not active, that is all: a timer that runs out
/// outside active play stays finished until play is active again. In active
/// play a timer that has run out is reset, and its period shrinks only if
/// the population leaves room for a spawn.
pub open spec fn cadence_step(
    before: Timer,
    after: Timer,
    delta: nat,
    active: bool,
    population: nat,
    cap: nat,
) -> bool {
    &&& countdown(after)
    &&& !(active && expires(before, delta)) ==> ticked(before, after, delta)
    &&& active && expires(before, delta) ==> {
        &&& timer_elapsed(after) == 0
        &&& !timer_finished(after)
        &&& timer_duration(after) == if population < cap {
            shrunk(timer_duration(before))
        } else {
            timer_duration(before)
        }
    }
}

/// Whether one spawner tick emits a spawn: only in active play, only when
/// the timer runs out, and only below the population cap.
pub open spec fn spawn_due(
    before: Timer,
    delta: nat,
    active: bool,
    population: nat,
    cap: nat,
) -> bool {
    active && expires(before, delta) && population < cap
}

/// With the population at the cap or above it, no tick of the spawner emits
/// a spawn, whatever the timer says.
pub proof fn lemma_spawn_cap(before: Timer, delta: nat, active: bool, population: nat, cap: nat)
    requires
        population >= cap,
    ensures
        !spawn_due(before, delta, active, population, cap),
{
}

/// A spawn leaves room under the cap: after it the population is still
/// within the cap.
pub proof fn lemma_spawn_within_cap(
    before: Timer,
    delta: nat,
    active: bool,
    population: nat,
    cap: nat,
)
    requires
        spawn_due(before, delta, active, population, cap),
    ensures
        population + 1 <= cap,
{
}

/// The spawn period never grows and never falls under the minimum period.
pub proof fn lemma_shrunk_bounds(period: nat)
    ensures
        shrunk(period) >= MIN_SPAWN_PERIOD,
        period >= MIN_SPAWN_PERIOD ==> shrunk(period) <= period,
{
}

/// Spawns come faster and faster, down to the minimum period: no tick of the
/// spawner lengthens the period of a timer that is at the minimum or above
/// it, and none takes it below the minimum.
pub proof fn lemma_cadence_accelerates(
    before: Timer,
    after: Timer,
    delta: nat,
    active: bool,
    population: nat,
    cap: nat,
)
    requires
        cadence_step(before, after, delta, active, population, cap),
        timer_duration(before) >= MIN_SPAWN_PERIOD,
    ensures
        MIN_SPAWN_PERIOD <= timer_duration(after) <= timer_duration(before),
{
}

/// One tick of a spawn timer: advances it and, if it has run out in active
/// play, resets it; if the population is then below `cap`, shortens its
/// period and reports a spawn.
pub fn cadence(timer: &mut Timer, delta: u64, active: bool, population: usize, cap: usize) -> (due:
    bool)
    requires
        countdown(*old(timer)),
    ensures
        cadence_step(*old(timer), *final(timer), delta as nat, active, population as nat, cap as nat),
        due == spawn_due(*old(timer), delta as nat, active, population as nat, cap as nat),
{
    clock::tick(timer, delta);
    if !clock::finished(timer) || !active {
        return false;
    }
    clock::reset(timer);
    if population >= cap {
        return false;
    }
    let period: u128 = clock::duration(timer);
    let reduced: u128 = period * 4 / 5;
    let next: u64 = if reduced >= MIN_SPAWN_PERIOD as u128 {
        reduced as u64
    } else {
        MIN_SPAWN_PERIOD
    };
    clock::set_duration(timer, next);
    true
}

/// Where a new body appears and how it moves: position, linear velocity and
/// spin, in thousandths of a unit (or of a radian) per second.
#[derive(Clone, Copy, Debug, PartialEq, Eq, Structural)]
pub struct Launch {
    pub x: i64,
    pub y: i64,
    pub vx: i64,
    pub vy: i64,
    pub angvel: i64,
}

/// The two arena edges that new bodies enter from.
#[derive(Clone, Copy, Debug, PartialEq, Eq, Structural)]
pub enum SpawnEdge {
    Top,
    Left,
}

/// The point of an edge at offset `along`: on the top edge `along` is the
/// horizontal coordinate, on the left edge the vertical one.
pub fn edge_point(edge: SpawnEdge, along: i64) -> (point: (i64, i64))
    ensures
        edge == SpawnEdge::Top ==> point == (along, (ARENA_HEIGHT / 2) as i64),
        edge == SpawnEdge::Left ==> point == ((-(ARENA_WIDTH / 2)) as i64, along),
{
    match edge {
        SpawnEdge::Top => (along, ARENA_HEIGHT / 2),
        SpawnEdge::Left => (-(ARENA_WIDTH / 2), along),
    }
}

/// A launch from the top or the left edge of the arena, with a velocity of at
/// most a quarter of the arena's extent per second on each axis and a spin
/// within `spin`.
pub open spec fn edge_launch(l: Launch, spin: int) -> bool {
    &&& {
        ||| l.y == ARENA_HEIGHT / 2 && -(ARENA_WIDTH / 2) <= l.x < ARENA_WIDTH / 2
        ||| l.x == -(ARENA_WIDTH / 2) && -(ARENA_HEIGHT / 2) <= l.y < ARENA_HEIGHT / 2
    }
    &&& -(ARENA_WIDTH / 4) <= l.vx < ARENA_WIDTH / 4
    &&& -(ARENA_HEIGHT / 4) <= l.vy < ARENA_HEIGHT / 4
    &&& -spin <= l.angvel < spin
}

/// Draws a launch from an arena edge: the edge, the point along it, the
/// velocity and the spin are each drawn at random.
pub(crate) fn draw_edge_launch(rng: &mut ThreadRng, spin: i64) -> (l: Launch)
    requires
        0 < spin,
    ensures
        edge_launch(l, spin as int),
{
    let side: i64 = random::gen_range(rng, 0, 2);
    let (x, y) = if side == 0 {
        let along: i64 = random::gen_range(rng, -(ARENA_WIDTH / 2), ARENA_WIDTH / 2);
        edge_point(SpawnEdge::Top, along)
    } else {
        let along: i64 = random::gen_range(rng, -(ARENA_HEIGHT / 2), ARENA_HEIGHT / 2);
        edge_point(SpawnEdge::Left, along)
    };
    let vx: i64 = random::gen_range(rng, -(ARENA_WIDTH / 4), ARENA_WIDTH / 4);
    let vy: i64 = random::gen_range(rng, -(ARENA_HEIGHT / 4), ARENA_HEIGHT / 4);
    let angvel: i64 = random::gen_range(rng, -spin, spin);
    Launch { x, y, vx, vy, angvel }
}

/// The launch of a fragment of a destroyed body: displaced from the parent by
/// the given offset, moving at the given velocity, spinning as the parent did.
pub fn fragment_launch(
    parent_x: i64,
    parent_y: i64,
    parent_angvel: i64,
    dx: i64,
    dy: i64,
    vx: i64,
    vy: i64,
) -> (l: Launch)
    requires
        i64::MIN <= parent_x + dx <= i64::MAX,
        i64::MIN <= parent_y + dy <= i64::MAX,
    ensures
        l == (Launch { x: (parent_x + dx) as i64, y: (parent_y + dy) as i64, vx, vy, angvel: parent_angvel }),
{
    Launch { x: parent_x + dx, y: parent_y + dy, vx, vy, angvel: parent_angvel }
}

/// The parents around which fragments can be placed: every offset within
/// `radius` of `(x, y)` stays in range.
pub open spec fn splittable_at(x: i64, y: i64, radius: i64) -> bool {
    &&& i64::MIN <= x - radius <= i64::MAX && i64::MIN <= x + radius <= i64::MAX
    &&& i64::MIN <= y - radius <= i64::MAX && i64::MIN <= y + radius <= i64::MAX
}

/// Tells whether fragments can be placed around a parent at `(x, y)`.
pub fn is_splittable_at(x: i64, y: i64, radius: i64) -> (ok: bool)
    ensures
        ok == splittable_at(x, y, radius),
{
    x.checked_sub(radius).is_some() && x.checked_add(radius).is_some() && y.checked_sub(
        radius,
    ).is_some() && y.checked_add(radius).is_some()
}

/// A fragment launch as the split rule allows it: within `radius` of the
/// parent on each axis, with a velocity bounded by the arena's extent divided
/// by the radius in units, and with the parent's spin.
pub open spec fn split_launch(l: Launch, parent_x: int, parent_y: int, parent_angvel: int, radius: int) -> bool {
    &&& -radius <= l.x - parent_x < radius
    &&& -radius <= l.y - parent_y < radius
    &&& -(ARENA_WIDTH * UNIT / radius) <= l.vx < ARENA_WIDTH * UNIT / radius
    &&& -(ARENA_HEIGHT * UNIT / radius) <= l.vy < ARENA_HEIGHT * UNIT / radius
    &&& l.angvel == parent_angvel
}

/// Draws between one and three fragment launches around a destroyed parent.
pub(crate) fn draw_split(
    rng: &mut ThreadRng,
    parent_x: i64,
    parent_y: i64,
    parent_angvel: i64,
    radius: i64,
) -> (launches: Vec<Launch>)
    requires
        0 < radius <= ARENA_HEIGHT * UNIT,
        splittable_at(parent_x, parent_y, radius),
    ensures
        1 <= launches@.len() <= 3,
        forall|i: int|
            0 <= i < launches@.len() ==> split_launch(
                #[trigger] launches@[i],
                parent_x as int,
                parent_y as int,
                parent_angvel as int,
                radius as int,
            ),
{
    let count: i64 = random::gen_range(rng, 1, 4);
    let vx_bound: i64 = ARENA_WIDTH * UNIT / radius;
    let vy_bound: i64 = ARENA_HEIGHT * UNIT / radius;
    assert(vx_bound >= 1 && vy_bound >= 1) by (nonlinear_arith)
        requires
            0 < radius <= ARENA_HEIGHT * UNIT,
            vx_bound == ARENA_WIDTH * UNIT / (radius as int),
            vy_bound == ARENA_HEIGHT * UNIT / (radius as int),
            ARENA_HEIGHT <= ARENA_WIDTH,
            UNIT > 0,
    ;
    let mut launches: Vec<Launch> = Vec::new();
    let mut made: i64 = 0;
    while made < count
        invariant
            0 <= made <= count <= 3,
            launches@.len() == made,
            0 < radius,
            splittable_at(parent_x, parent_y, radius),
            vx_bound == ARENA_WIDTH * UNIT / (radius as int),
            vy_bound == ARENA_HEIGHT * UNIT / (radius as int),
            vx_bound >= 1,
            vy_bound >= 1,
            forall|i: int|
                0 <= i < launches@.len() ==> split_launch(
                    #[trigger] launches@[i],
                    parent_x as int,
                    parent_y as int,
                    parent_angvel as int,
                    radius as int,
                ),
        decreases count - made,
    {
        let dx: i64 = random::gen_range(rng, -radius, radius);
        let dy: i64 = random::gen_range(rng, -radius, radius);
        let vx: i64 = random::gen_range(rng, -vx_bound, vx_bound);
        let vy: i64 = random::gen_range(rng, -vy_bound, vy_bound);
        let l = fragment_launch(parent_x, parent_y, parent_angvel, dx, dy, vx, vy);
        launches.push(l);
        made = made + 1;
    }
    launches
}

} // verus!
