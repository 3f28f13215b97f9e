//! Timers, counted in nanoseconds, ticked by bevy's `Timer`.
use bevy::time::{Timer, TimerMode};
use std::time::Duration;
use vstd::prelude::*;

verus! {

/// Whether a repeating timer of `duration` that stood at `elapsed` finishes
/// a period during a tick of `delta`: as bevy reports it, a count of periods
/// finished that is not zero once cut to 32 bits.
pub open spec fn repeat_fires(duration: nat, elapsed: nat, delta: nat) -> bool {
    let t = elapsed + delta;
    if t < duration {
        false
    } else if duration == 0 {
        true
    } else {
        (t / duration) % 0x1_0000_0000 != 0
    }
}

/// Where a repeating timer stands after such a tick.
pub open spec fn repeat_elapsed(duration: nat, elapsed: nat, delta: nat) -> nat {
    let t = elapsed + delta;
    if t < duration {
        t
    } else if duration == 0 {
        0
    } else {
        t % duration
    }
}

/// Relies on bevy's `Timer::tick` on a repeating timer that is not paused:
/// the elapsed time grows by `delta`; once it reaches the duration it is
/// taken modulo the duration (zero for a zero duration) and the number of
/// periods finished, cut to `u32`, makes `just_finished`.
#[verifier::external_body]
fn bevy_tick_repeating(duration: u64, elapsed: u64, delta: u64) -> (r: (u64, bool))
    ensures
        r.0 == repeat_elapsed(duration as nat, elapsed as nat, delta as nat),
        r.1 == repeat_fires(duration as nat, elapsed as nat, delta as nat),
{
    let mut timer = Timer::new(Duration::from_nanos(duration), TimerMode::Repeating);
    timer.set_elapsed(Duration::from_nanos(elapsed));
    timer.tick(Duration::from_nanos(delta));
    (timer.elapsed().as_nanos() as u64, timer.just_finished())
}

/// Relies on bevy's `Timer::tick` on a one-shot timer that has not finished
/// and is not paused: the elapsed time grows by `delta`; once it reaches the
/// duration the timer is finished and stands at its duration.
#[verifier::external_body]
fn bevy_tick_once(duration: u64, elapsed: u64, delta: u64) -> (r: (u64, bool))
    ensures
        elapsed + delta >= duration ==> r == (duration, true),
        elapsed + delta < duration ==> r == ((elapsed + delta) as u64, false),
{
    let mut timer = Timer::new(Duration::from_nanos(duration), TimerMode::Once);
    timer.set_elapsed(Duration::from_nanos(elapsed));
    timer.tick(Duration::from_nanos(delta));
    (timer.elapsed().as_nanos() as u64, timer.finished())
}

/// A timer that finishes once every `duration` nanoseconds.
#[derive(Clone, Copy, Debug, PartialEq, Eq, Structural)]
pub struct RepeatingTimer {
    pub duration: u64,
    pub elapsed: u64,
    /// Whether the last tick finished a period.
    pub just_finished: bool,
}

impl RepeatingTimer {
    /// A timer of `duration` standing at `phase`.
    pub fn new(duration: u64, phase: u64) -> (r: RepeatingTimer)
        ensures
            r.duration == duration,
            r.elapsed == phase,
            !r.just_finished,
    {
        RepeatingTimer { duration, elapsed: phase, just_finished: false }
    }

    /// Advances the timer by `delta` nanoseconds; returns whether a period
    /// finished.
    pub fn tick(&mut self, delta: u64) -> (fired: bool)
        ensures
            final(self).duration == old(self).duration,
            final(self).elapsed == repeat_elapsed(
                old(self).duration as nat,
                old(self).elapsed as nat,
                delta as nat,
            ),
            fired == repeat_fires(old(self).duration as nat, old(self).elapsed as nat, delta as nat),
            final(self).just_finished == fired,
    {
        let (elapsed, fired) = bevy_tick_repeating(self.duration, self.elapsed, delta);
        self.elapsed = elapsed;
        self.just_finished = fired;
        fired
    }
}

/// A one-shot timer before and after a tick of `delta` nanoseconds: a
/// finished timer stays as it is; another grows by `delta` and finishes,
/// standing at its duration, once it reaches it.
pub open spec fn once_ticked(old: OnceTimer, new: OnceTimer, delta: nat) -> bool {
    if old.finished {
        new == old
    } else {
        &&& new.duration == old.duration
        &&& new.finished == (old.elapsed + delta >= old.duration)
        &&& new.elapsed == (if old.elapsed + delta >= old.duration {
            old.duration as int
        } else {
            old.elapsed + delta
        })
    }
}

/// A timer that finishes once, after `duration` nanoseconds.
#[derive(Clone, Copy, Debug, PartialEq, Eq, Structural)]
pub struct OnceTimer {
    pub duration: u64,
    pub elapsed: u64,
    pub finished: bool,
}

impl OnceTimer {
    pub fn new(duration: u64) -> (r: OnceTimer)
        ensures
            r.duration == duration,
            r.elapsed == 0,
            !r.finished,
    {
        OnceTimer { duration, elapsed: 0, finished: false }
    }

    /// Advances the timer by `delta` nanoseconds; a finished timer stays
    /// as it is. Returns whether the timer is finished.
    pub fn tick(&mut self, delta: u64) -> (finished: bool)
        ensures
            once_ticked(*old(self), *final(self), delta as nat),
            finished == final(self).finished,
    {
        if self.finished {
            return true;
        }
        let (elapsed, finished) = bevy_tick_once(self.duration, self.elapsed, delta);
        self.elapsed = elapsed;
        self.finished = finished;
        finished
    }
}

} // verus!
