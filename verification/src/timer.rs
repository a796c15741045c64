//! Timers that run round: a timer finishes each time its duration has passed
//! and starts over with what is left of the time.
//!
//! The state of a timer is kept here as plain numbers of nanoseconds. A tick
//! is computed by the engine's own timer, which is set up from those numbers
//! and read back: one private function does that, and its contract is taken
//! on trust.

use vstd::prelude::*;

verus! {

/// A repeating timer. Times are counted in nanoseconds.
#[derive(Clone, Copy, Debug, PartialEq, Eq, Structural)]
pub struct RepeatingTimer {
    /// The time for which the timer has run since it last finished or was
    /// reset.
    pub elapsed: u64,
    /// The time after which the timer finishes.
    pub duration: u64,
    /// Whether the last tick reached the duration.
    pub finished: bool,
    /// How often the last tick reached the duration, counted modulo 2^32.
    pub times_finished_this_tick: u32,
}

/// What a tick makes of a timer that has run for `elapsed` of its `duration`
/// when `delta` passes: the time it has run for afterwards, whether it
/// finished, and how often it did so, counted modulo 2^32.
pub open spec fn ticked(elapsed: u64, duration: u64, delta: u64) -> (u64, bool, u32) {
    if duration > 0 {
        (
            ((elapsed + delta) % (duration as int)) as u64,
            elapsed + delta >= duration,
            (((elapsed + delta) / (duration as int)) % 0x1_0000_0000) as u32,
        )
    } else {
        (0, true, u32::MAX)
    }
}

/// Trusted: `Timer::tick` of bevy_time, on a timer made by `Timer::new` in
/// the repeating mode and brought to `elapsed` by `Timer::set_elapsed`; read
/// back by `Timer::elapsed`, `Timer::finished` and
/// `Timer::times_finished_this_tick`. The tick adds `delta` to the elapsed
/// time; the timer has finished when the sum reaches the duration; the
/// elapsed time becomes the remainder and the count the quotient of the sum
/// by the duration, cut to 32 bits. A timer without duration finishes with
/// every tick, with nothing elapsed and the greatest count.
#[verifier::external_body]
fn engine_tick(elapsed: u64, duration: u64, delta: u64) -> (after: (u64, bool, u32))
    ensures
        after == ticked(elapsed, duration, delta),
{
    let mut timer = bevy::time::Timer::new(
        bevy::utils::Duration::from_nanos(duration),
        bevy::time::TimerMode::Repeating,
    );
    timer.set_elapsed(bevy::utils::Duration::from_nanos(elapsed));
    timer.tick(bevy::utils::Duration::from_nanos(delta));
    (timer.elapsed().as_nanos() as u64, timer.finished(), timer.times_finished_this_tick())
}

impl RepeatingTimer {
    /// A timer of the given duration that has not run yet.
    pub open spec fn fresh(duration: u64) -> RepeatingTimer {
        RepeatingTimer { elapsed: 0, duration, finished: false, times_finished_this_tick: 0 }
    }

    /// The timer after `delta` nanoseconds have passed.
    pub open spec fn after_tick(self, delta: u64) -> RepeatingTimer {
        let after = ticked(self.elapsed, self.duration, delta);
        RepeatingTimer {
            elapsed: after.0,
            duration: self.duration,
            finished: after.1,
            times_finished_this_tick: after.2,
        }
    }

    /// The timer set back to its start.
    pub open spec fn after_reset(self) -> RepeatingTimer {
        RepeatingTimer::fresh(self.duration)
    }

    /// A timer of the given duration, in nanoseconds, that has not run yet.
    pub fn new(duration: u64) -> (timer: RepeatingTimer)
        ensures
            timer == RepeatingTimer::fresh(duration),
    {
        RepeatingTimer { elapsed: 0, duration, finished: false, times_finished_this_tick: 0 }
    }

    /// Lets `delta` nanoseconds pass.
    pub fn tick(&mut self, delta: u64)
        ensures
            *final(self) == old(self).after_tick(delta),
    {
        let (elapsed, finished, times): (u64, bool, u32) = engine_tick(
            self.elapsed,
            self.duration,
            delta,
        );
        self.elapsed = elapsed;
        self.finished = finished;
        self.times_finished_this_tick = times;
    }

    /// Sets the timer back to its start.
    pub fn reset(&mut self)
        ensures
            *final(self) == old(self).after_reset(),
    {
        self.elapsed = 0;
        self.finished = false;
        self.times_finished_this_tick = 0;
    }

    /// Whether the last tick reached the duration.
    pub fn finished(&self) -> (finished: bool)
        ensures
            finished == self.finished,
    {
        self.finished
    }

    /// Whether the last tick counted a finish.
    pub fn just_finished(&self) -> (just: bool)
        ensures
            just == (self.times_finished_this_tick > 0),
    {
        self.times_finished_this_tick > 0
    }
}

/// After a tick a timer with a duration has run for less than its duration,
/// and no time is lost: the time run before and the time passed make up the
/// finishes of the tick and the time run after. The timer finishes exactly
/// when the time adds up to its duration.
pub proof fn law_tick_keeps_time(timer: RepeatingTimer, delta: u64)
    requires
        timer.duration > 0,
    ensures
        timer.after_tick(delta).elapsed < timer.duration,
        timer.elapsed + delta == ((timer.elapsed + delta) / (timer.duration as int))
            * timer.duration + timer.after_tick(delta).elapsed,
        timer.after_tick(delta).finished <==> timer.elapsed + delta >= timer.duration,
        timer.after_tick(delta).duration == timer.duration,
{
    let sum = timer.elapsed + delta;
    let d = timer.duration as int;
    assert(0 <= sum % d < d && sum == (sum / d) * d + sum % d) by (nonlinear_arith)
        requires
            d > 0,
            sum >= 0,
    ;
}

} // verus!
