//! The countdown timers that pace the game.
//!
//! The timers are `bevy::time::Timer` values. Verus sees none of their
//! fields; what the timer's own getters report is named by the spec functions
//! below, and each wrapper states over those names what the call does. All
//! times are whole nanoseconds.

use bevy::time::Timer;
use bevy::time::TimerMode;
use std::time::Duration;
use vstd::prelude::*;

verus! {

/// `bevy::time::Timer`, carried as an opaque value.
#[verifier::external_type_specification]
#[verifier::external_body]
pub struct ExTimer(Timer);

/// The nanoseconds in what `Timer::duration` returns.
pub uninterp spec fn timer_duration(t: Timer) -> nat;

/// The nanoseconds in what `Timer::elapsed` returns.
pub uninterp spec fn timer_elapsed(t: Timer) -> nat;

/// What `Timer::finished` returns.
pub uninterp spec fn timer_finished(t: Timer) -> bool;

/// What `Timer::paused` returns.
pub uninterp spec fn timer_paused(t: Timer) -> bool;

/// Whether `Timer::mode` returns `TimerMode::Repeating`.
pub uninterp spec fn timer_repeating(t: Timer) -> bool;

/// A running one-shot countdown whose times fit in 64 bits and whose elapsed
/// time has not passed its duration. Every timer made and kept by this crate
/// is one.
pub open spec fn countdown(t: Timer) -> bool {
    &&& !timer_paused(t)
    &&& !timer_repeating(t)
    &&& timer_elapsed(t) <= timer_duration(t) <= u64::MAX
}

/// The elapsed time of a running one-shot countdown after `delta` more
/// nanoseconds: it stops at the duration.
pub open spec fn advanced(elapsed: nat, duration: nat, delta: nat) -> nat {
    if elapsed + delta >= duration {
        duration
    } else {
        elapsed + delta
    }
}

/// `Timer::new` with `TimerMode::Once`: a fresh one-shot timer of the given
/// duration, running, with nothing elapsed and not finished.
#[verifier::external_body]
pub(crate) fn once(duration: u64) -> (t: Timer)
    ensures
        timer_duration(t) == duration,
        timer_elapsed(t) == 0,
        !timer_finished(t),
        !timer_paused(t),
        !timer_repeating(t),
{
    Timer::new(Duration::from_nanos(duration), TimerMode::Once)
}

/// How `after` follows from `before` by ticking `delta` nanoseconds into a
/// one-shot timer. A paused or already finished timer stays as it is.
/// Otherwise the elapsed time grows by `delta`; once it reaches the duration
/// the timer is finished and the elapsed time is the duration. Duration, mode
/// and pause flag never change.
pub open spec fn ticked(before: Timer, after: Timer, delta: nat) -> bool {
    &&& timer_duration(after) == timer_duration(before)
    &&& timer_paused(after) == timer_paused(before)
    &&& timer_repeating(after) == timer_repeating(before)
    &&& if timer_paused(before) || timer_finished(before) {
        &&& timer_elapsed(after) == timer_elapsed(before)
        &&& timer_finished(after) == timer_finished(before)
    } else {
        &&& timer_elapsed(after) == advanced(timer_elapsed(before), timer_duration(before), delta)
        &&& timer_finished(after) == (timer_elapsed(before) + delta >= timer_duration(before))
    }
}

/// `Timer::tick` on a one-shot timer: see [`ticked`]. Repeating timers are
/// left out (ticking one of zero duration divides by zero), and so are
/// elapsed times beyond 64 bits of nanoseconds, to keep the sum in range.
#[verifier::external_body]
pub(crate) fn tick(t: &mut Timer, delta: u64)
    requires
        !timer_repeating(*old(t)),
        timer_elapsed(*old(t)) <= u64::MAX,
    ensures
        ticked(*old(t), *final(t), delta as nat),
{
    t.tick(Duration::from_nanos(delta));
}

/// `Timer::finished`.
#[verifier::external_body]
pub(crate) fn finished(t: &Timer) -> (done: bool)
    ensures
        done == timer_finished(*t),
{
    t.finished()
}

/// `Timer::reset`: nothing elapsed, not finished; duration, mode and pause
/// flag stay.
#[verifier::external_body]
pub(crate) fn reset(t: &mut Timer)
    ensures
        timer_elapsed(*final(t)) == 0,
        !timer_finished(*final(t)),
        timer_duration(*final(t)) == timer_duration(*old(t)),
        timer_paused(*final(t)) == timer_paused(*old(t)),
        timer_repeating(*final(t)) == timer_repeating(*old(t)),
{
    t.reset();
}

/// `Timer::paused`.
#[verifier::external_body]
pub(crate) fn paused(t: &Timer) -> (held: bool)
    ensures
        held == timer_paused(*t),
{
    t.paused()
}

/// `Timer::mode`, told apart: whether it is `TimerMode::Repeating`.
#[verifier::external_body]
pub(crate) fn repeating(t: &Timer) -> (repeats: bool)
    ensures
        repeats == timer_repeating(*t),
{
    match t.mode() {
        TimerMode::Repeating => true,
        TimerMode::Once => false,
    }
}

/// `Timer::elapsed`, in nanoseconds.
#[verifier::external_body]
pub(crate) fn elapsed(t: &Timer) -> (nanos: u128)
    ensures
        nanos == timer_elapsed(*t),
{
    t.elapsed().as_nanos()
}

/// `Timer::duration`, in nanoseconds.
#[verifier::external_body]
pub(crate) fn duration(t: &Timer) -> (nanos: u128)
    ensures
        nanos == timer_duration(*t),
{
    t.duration().as_nanos()
}

/// `Timer::set_duration`: only the duration changes.
#[verifier::external_body]
pub(crate) fn set_duration(t: &mut Timer, duration: u64)
    ensures
        timer_duration(*final(t)) == duration,
        timer_elapsed(*final(t)) == timer_elapsed(*old(t)),
        timer_finished(*final(t)) == timer_finished(*old(t)),
        timer_paused(*final(t)) == timer_paused(*old(t)),
        timer_repeating(*final(t)) == timer_repeating(*old(t)),
{
    t.set_duration(Duration::from_nanos(duration));
}

/// Tells whether a timer is a running one-shot countdown, as the rules of
/// this crate need it.
pub fn is_countdown(t: &Timer) -> (ok: bool)
    ensures
        ok == countdown(*t),
{
    let length: u128 = duration(t);
    !paused(t) && !repeating(t) && elapsed(t) <= length && length <= u64::MAX as u128
}

} // verus!
