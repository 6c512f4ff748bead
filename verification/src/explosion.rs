//! Explosions: what sets one off, what it looks like, and how it plays out.

use crate::clock;
use crate::clock::{countdown, ticked, timer_duration, timer_elapsed, timer_finished};
use crate::components::{Explosion, ForState};
use crate::config::UNIT;
use crate::state::AppState;
use vstd::prelude::*;

verus! {

/// What blew up.
#[derive(Clone, Copy, Debug, PartialEq, Eq, Structural)]
pub enum ExplosionKind {
    ShipDead,
    ShipContact,
    LaserOnAsteroid,
    AsteroidOnGuardian,
}

/// A request for an explosion of some kind at a point of the arena.
#[derive(Clone, Copy, Debug, PartialEq, Eq, Structural)]
pub struct SpawnExplosionEvent {
    pub kind: ExplosionKind,
    pub x: i64,
    pub y: i64,
}

/// Bound on the scales of an explosion, in thousandths: they fit in 32 bits.
pub const MAX_SCALE: i64 = 0x7fff_ffff;

impl Explosion {
    /// The timer is a running one-shot countdown and both scales are within
    /// `MAX_SCALE` of zero.
    pub open spec fn wf(&self) -> bool {
        &&& countdown(self.timer)
        &&& -MAX_SCALE <= self.start_scale <= MAX_SCALE
        &&& -MAX_SCALE <= self.end_scale <= MAX_SCALE
    }

    /// Tells whether the explosion is well-formed.
    pub fn is_wf(&self) -> (ok: bool)
        ensures
            ok == self.wf(),
    {
        clock::is_countdown(&self.timer) && -MAX_SCALE <= self.start_scale && self.start_scale
            <= MAX_SCALE && -MAX_SCALE <= self.end_scale && self.end_scale <= MAX_SCALE
    }
}

/// What a new explosion is made of: its kind, its lifetime and scales, the
/// state it lives in, the size of its sprite and where it is, in thousandths
/// of a unit.
pub struct ExplosionBundle {
    pub kind: ExplosionKind,
    pub explosion: Explosion,
    pub for_state: ForState<AppState>,
    pub width: i64,
    pub height: i64,
    pub x: i64,
    pub y: i64,
    pub z: i64,
}

/// Sprite size of an explosion, in thousandths of a unit.
pub open spec fn explosion_size(kind: ExplosionKind) -> (i64, i64) {
    match kind {
        ExplosionKind::ShipDead | ExplosionKind::ShipContact => (42_000, 39_000),
        ExplosionKind::LaserOnAsteroid | ExplosionKind::AsteroidOnGuardian => (36_000, 32_000),
    }
}

/// Scale that an explosion grows to, in thousandths.
pub open spec fn explosion_end_scale(kind: ExplosionKind) -> i64 {
    match kind {
        ExplosionKind::ShipContact => 2_000,
        _ => 5_000,
    }
}

/// Lifetime of an explosion, in nanoseconds.
pub open spec fn explosion_lifetime(kind: ExplosionKind) -> u64 {
    match kind {
        ExplosionKind::ShipContact => 500_000_000,
        _ => 1_500_000_000,
    }
}

/// Answers an explosion request: the explosion appears where the request
/// says, three layers above the background, at scale one, with the size, end
/// scale and lifetime of its kind, and lives only in the `Game` state.
pub fn catch_explosion_event(event: &SpawnExplosionEvent) -> (bundle: ExplosionBundle)
    ensures
        bundle.kind == event.kind,
        bundle.explosion.wf(),
        timer_duration(bundle.explosion.timer) == explosion_lifetime(event.kind),
        timer_elapsed(bundle.explosion.timer) == 0,
        !timer_finished(bundle.explosion.timer),
        bundle.explosion.start_scale == UNIT,
        bundle.explosion.end_scale == explosion_end_scale(event.kind),
        bundle.for_state.states@ == seq![AppState::Game],
        (bundle.width, bundle.height) == explosion_size(event.kind),
        bundle.x == event.x,
        bundle.y == event.y,
        bundle.z == 3 * UNIT,
{
    let (width, height, end_scale, lifetime): (i64, i64, i64, u64) = match event.kind {
        ExplosionKind::ShipDead => (42_000, 39_000, 5_000, 1_500_000_000),
        ExplosionKind::ShipContact => (42_000, 39_000, 2_000, 500_000_000),
        ExplosionKind::LaserOnAsteroid => (36_000, 32_000, 5_000, 1_500_000_000),
        ExplosionKind::AsteroidOnGuardian => (36_000, 32_000, 5_000, 1_500_000_000),
    };
    let mut states: Vec<AppState> = Vec::new();
    states.push(AppState::Game);
    ExplosionBundle {
        kind: event.kind,
        explosion: Explosion { timer: clock::once(lifetime), start_scale: UNIT, end_scale },
        for_state: ForState { states },
        width,
        height,
        x: event.x,
        y: event.y,
        z: 3 * UNIT,
    }
}

/// The scale between `start` and `end` after `elapsed` of `duration`,
/// rounded toward `start`.
pub open spec fn scale_at(start: int, end: int, elapsed: int, duration: int) -> int {
    if end >= start {
        start + (end - start) * elapsed / duration
    } else {
        start - (start - end) * elapsed / duration
    }
}

/// While less than the whole duration has elapsed, the scale lies between
/// the start scale and the end scale.
pub proof fn lemma_scale_at_between(start: int, end: int, elapsed: int, duration: int)
    requires
        0 <= elapsed < duration,
    ensures
        start <= end ==> start <= scale_at(start, end, elapsed, duration) <= end,
        end <= start ==> end <= scale_at(start, end, elapsed, duration) <= start,
{
    let span = if end >= start {
        end - start
    } else {
        start - end
    };
    assert(0 <= span * elapsed / duration <= span) by (nonlinear_arith)
        requires
            0 <= elapsed < duration,
            0 <= span,
    ;
}

/// One tick of a running explosion. Advances its timer by `delta`
/// nanoseconds. Returns `None` when the explosion is over and to be removed;
/// else the scale to show it at, which grows with the elapsed part of its
/// lifetime from the start scale toward the end scale.
pub fn animate_explosion(explosion: &mut Explosion, delta: u64) -> (scale: Option<i64>)
    requires
        old(explosion).wf(),
    ensures
        final(explosion).wf(),
        ticked(old(explosion).timer, final(explosion).timer, delta as nat),
        final(explosion).start_scale == old(explosion).start_scale,
        final(explosion).end_scale == old(explosion).end_scale,
        scale.is_none() == timer_finished(final(explosion).timer),
        scale matches Some(s) ==> s == scale_at(
            old(explosion).start_scale as int,
            old(explosion).end_scale as int,
            timer_elapsed(final(explosion).timer) as int,
            timer_duration(final(explosion).timer) as int,
        ),
{
    clock::tick(&mut explosion.timer, delta);
    if clock::finished(&explosion.timer) {
        return None;
    }
    let elapsed: u128 = clock::elapsed(&explosion.timer);
    let duration: u128 = clock::duration(&explosion.timer);
    let start = explosion.start_scale;
    let end = explosion.end_scale;
    proof {
        lemma_scale_at_between(start as int, end as int, elapsed as int, duration as int);
    }
    if end >= start {
        let span: u128 = (end - start) as u128;
        assert(span * elapsed <= 0xffff_ffff * 0xffff_ffff_ffff_ffff) by (nonlinear_arith)
            requires
                span <= 0xffff_ffff,
                elapsed <= 0xffff_ffff_ffff_ffff,
        ;
        let grown: u128 = span * elapsed / duration;
        Some(start + grown as i64)
    } else {
        let span: u128 = (start - end) as u128;
        assert(span * elapsed <= 0xffff_ffff * 0xffff_ffff_ffff_ffff) by (nonlinear_arith)
            requires
                span <= 0xffff_ffff,
                elapsed <= 0xffff_ffff_ffff_ffff,
        ;
        let shrunk: u128 = span * elapsed / duration;
        Some(start - shrunk as i64)
    }
}

} // verus!
