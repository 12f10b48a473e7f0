//! A countdown primitive with start/stop/reset and an optional periodic
//! "pulse" notification point.
//!
//! All times are whole milliseconds. A timer counts `time_left` down from
//! `duration` while `is_going`; the tick that exhausts the remaining time
//! stops the timer and marks it ended, never an earlier one.

use vstd::prelude::*;

verus! {

/// A countdown over integer milliseconds.
///
/// Invariant (established by [`Timer::new`] and preserved by every method):
/// an ended timer is not going, and the pulse accumulator stays strictly
/// below a configured pulse interval (and is zero when no interval is
/// configured).
#[derive(Debug, Clone, Copy, PartialEq, Eq, Structural)]
pub struct Timer {
    /// Full countdown length in milliseconds.
    pub duration: u64,
    /// Milliseconds still to run; counts down from `duration` to 0.
    pub time_left: u64,
    /// True while the countdown is running.
    pub is_going: bool,
    /// True once the countdown has been exhausted or stopped.
    pub is_ended: bool,
    /// Pulse period in milliseconds; 0 means no pulses are emitted.
    pub pulse_interval: u64,
    /// Milliseconds accumulated toward the next pulse.
    pub pulse_accumulator: u64,
}

impl Timer {
    /// Well-formedness: ended timers do not run, and the pulse accumulator
    /// is within its interval.
    pub open spec fn wf(self) -> bool {
        &&& self.is_ended ==> !self.is_going
        &&& self.pulse_interval > 0 ==> self.pulse_accumulator < self.pulse_interval
        &&& self.pulse_interval == 0 ==> self.pulse_accumulator == 0
    }

    /// The freshly constructed timer for a given duration.
    pub open spec fn spec_new(duration: u64) -> Timer {
        Timer {
            duration,
            time_left: duration,
            is_going: false,
            is_ended: false,
            pulse_interval: 0,
            pulse_accumulator: 0,
        }
    }

    /// Constructs a stopped, non-ended timer with `time_left == duration`
    /// and no pulse interval configured.
    pub fn new(duration: u64) -> (t: Timer)
        ensures
            t == Timer::spec_new(duration),
            t.wf(),
    {
        Timer {
            duration,
            time_left: duration,
            is_going: false,
            is_ended: false,
            pulse_interval: 0,
            pulse_accumulator: 0,
        }
    }

    /// `self` after `stop`: no longer going, marked ended.
    pub open spec fn spec_stop(self) -> Timer {
        Timer { is_going: false, is_ended: true, ..self }
    }

    /// Halts the countdown and marks it ended. Terminal with respect to
    /// counting down: `update` has no further effect until `reset`/`start`.
    pub fn stop(&mut self)
        ensures
            *final(self) == old(self).spec_stop(),
    {
        self.is_going = false;
        self.is_ended = true;
    }

    /// `self` after `reset`: stopped, not ended, full time restored, pulse
    /// accumulator cleared.
    pub open spec fn spec_reset(self) -> Timer {
        Timer {
            time_left: self.duration,
            is_going: false,
            is_ended: false,
            pulse_accumulator: 0,
            ..self
        }
    }

    /// Clears `is_going` and `is_ended`, restores `time_left = duration`,
    /// and zeroes the pulse accumulator. Safe to call from any state.
    pub fn reset(&mut self)
        ensures
            *final(self) == old(self).spec_reset(),
            final(self).wf(),
    {
        self.is_going = false;
        self.is_ended = false;
        self.time_left = self.duration;
        self.pulse_accumulator = 0;
    }

    /// `self` after `start`: reset, then running.
    pub open spec fn spec_start(self) -> Timer {
        Timer { is_going: true, ..self.spec_reset() }
    }

    /// Resets the timer and then sets it going. Calling `start` on a timer
    /// that is already running restarts it from the full duration.
    pub fn start(&mut self)
        ensures
            *final(self) == old(self).spec_start(),
            final(self).wf(),
    {
        self.reset();
        self.is_going = true;
    }

    /// Replaces the full countdown length. Nothing else changes: the new
    /// duration takes effect for `time_left` at the next `reset`/`start`.
    pub fn set_time(&mut self, duration: u64)
        ensures
            *final(self) == (Timer { duration, ..*old(self) }),
    {
        self.duration = duration;
    }

    /// Configures the pulse period (0 switches pulses off) and clears the
    /// accumulator, so the first pulse comes a full interval later.
    pub fn set_pulse_interval(&mut self, interval: u64)
        ensures
            *final(self) == (Timer { pulse_interval: interval, pulse_accumulator: 0, ..*old(self) }),
            final(self).wf() == (old(self).is_ended ==> !old(self).is_going),
    {
        self.pulse_interval = interval;
        self.pulse_accumulator = 0;
    }

    /// Whether a tick of `dt` on this timer emits a pulse: the timer is
    /// running, a pulse interval is configured, and the accumulated time
    /// reaches it.
    pub open spec fn spec_pulse_fires(self, dt: u64) -> bool {
        &&& self.is_going
        &&& self.pulse_interval > 0
        &&& self.pulse_accumulator + dt >= self.pulse_interval
    }

    /// `self` after one tick of `dt` milliseconds.
    ///
    /// A tick on a timer that is not going changes nothing. Otherwise the
    /// pulse accumulator advances (resetting once when it reaches the
    /// interval, even if `dt` spans several intervals), and `time_left`
    /// drops by `dt`; the tick on which `dt` reaches the remaining time sets
    /// `time_left` to 0 and stops the timer.
    pub open spec fn spec_update(self, dt: u64) -> Timer {
        if !self.is_going {
            self
        } else {
            let pulse_accumulator = if self.pulse_interval == 0 {
                self.pulse_accumulator
            } else if self.spec_pulse_fires(dt) {
                0
            } else {
                (self.pulse_accumulator + dt) as u64
            };
            if dt >= self.time_left {
                Timer {
                    time_left: 0,
                    is_going: false,
                    is_ended: true,
                    pulse_accumulator,
                    ..self
                }
            } else {
                Timer { time_left: (self.time_left - dt) as u64, pulse_accumulator, ..self }
            }
        }
    }

    /// Advances a running countdown by `dt` milliseconds; a no-op unless
    /// `is_going`. Returns whether this tick emitted a pulse.
    ///
    /// `t` is the absolute simulation time handed down by the driver; the
    /// countdown depends only on the deltas, so it is unused.
    pub fn update(&mut self, t: u64, dt: u64) -> (pulsed: bool)
        ensures
            *final(self) == old(self).spec_update(dt),
            pulsed == old(self).spec_pulse_fires(dt),
            !old(self).is_going ==> *final(self) == *old(self),
            final(self).is_ended == (old(self).is_ended
                || (old(self).is_going && dt >= old(self).time_left)),
            old(self).wf() ==> final(self).wf(),
    {
        let _ = t;
        if !self.is_going {
            return false;
        }
        let mut pulsed = false;
        if self.pulse_interval > 0 {
            let room = if self.pulse_accumulator >= self.pulse_interval {
                0
            } else {
                self.pulse_interval - self.pulse_accumulator
            };
            if dt >= room {
                self.pulse_accumulator = 0;
                pulsed = true;
            } else {
                self.pulse_accumulator = self.pulse_accumulator + dt;
            }
        }
        if dt >= self.time_left {
            self.time_left = 0;
            self.stop();
        } else {
            self.time_left = self.time_left - dt;
        }
        pulsed
    }
}

/// The timer that results from feeding the ticks of `dts`, in order, into
/// `update`.
pub open spec fn run_timer(t: Timer, dts: Seq<u64>) -> Timer
    decreases dts.len(),
{
    if dts.len() == 0 {
        t
    } else {
        run_timer(t.spec_update(dts[0]), dts.drop_first())
    }
}

/// The total time carried by a sequence of ticks.
pub open spec fn total_time(dts: Seq<u64>) -> int
    decreases dts.len(),
{
    if dts.len() == 0 {
        0
    } else {
        dts[0] + total_time(dts.drop_first())
    }
}

/// A sequence of ticks never carries negative time.
pub proof fn lemma_total_time_nonneg(dts: Seq<u64>)
    ensures
        total_time(dts) >= 0,
    decreases dts.len(),
{
    if dts.len() > 0 {
        lemma_total_time_nonneg(dts.drop_first());
    }
}

/// Ticks never revive a timer that is not going: feeding any sequence of
/// deltas into `update` leaves it exactly as it was.
pub proof fn lemma_run_timer_not_going(t: Timer, dts: Seq<u64>)
    requires
        !t.is_going,
    ensures
        run_timer(t, dts) == t,
    decreases dts.len(),
{
    if dts.len() > 0 {
        lemma_run_timer_not_going(t.spec_update(dts[0]), dts.drop_first());
    }
}

/// A running countdown ends exactly when the ticks exhaust it: once the
/// deltas sum to at least `time_left`, the timer is ended and no longer
/// going, whatever the individual deltas were.
pub proof fn lemma_timer_ends(t: Timer, dts: Seq<u64>)
    requires
        t.is_going,
        t.time_left > 0,
        total_time(dts) >= t.time_left,
    ensures
        run_timer(t, dts).is_ended,
        !run_timer(t, dts).is_going,
    decreases dts.len(),
{
    if dts[0] >= t.time_left {
        lemma_run_timer_not_going(t.spec_update(dts[0]), dts.drop_first());
    } else {
        lemma_timer_ends(t.spec_update(dts[0]), dts.drop_first());
    }
}

/// A running countdown never ends early: while the ticks sum to less than
/// `time_left`, the timer keeps going with exactly the remainder left, and
/// is not ended.
pub proof fn lemma_timer_runs_down(t: Timer, dts: Seq<u64>)
    requires
        t.is_going,
        !t.is_ended,
        total_time(dts) < t.time_left,
    ensures
        run_timer(t, dts).is_going,
        !run_timer(t, dts).is_ended,
        run_timer(t, dts).time_left == t.time_left - total_time(dts),
    decreases dts.len(),
{
    if dts.len() > 0 {
        lemma_total_time_nonneg(dts.drop_first());
        lemma_timer_runs_down(t.spec_update(dts[0]), dts.drop_first());
    }
}

/// While it runs, a countdown stays within its duration: a tick never
/// leaves `time_left` above where it was, let alone above `duration`.
pub proof fn lemma_time_left_bounded(t: Timer, dt: u64)
    ensures
        t.spec_update(dt).time_left <= t.time_left,
        t.time_left <= t.duration ==> t.spec_update(dt).time_left <= t.duration,
{
}

/// For every positive duration: after `new(duration)`, `start()`, and
/// `update` calls whose deltas sum to exactly `duration`, the timer has
/// `is_ended` and is no longer going.
pub proof fn lemma_full_duration_ends_timer(duration: u64, dts: Seq<u64>)
    requires
        duration > 0,
        total_time(dts) == duration,
    ensures
        run_timer(Timer::spec_new(duration).spec_start(), dts).is_ended,
        !run_timer(Timer::spec_new(duration).spec_start(), dts).is_going,
{
    lemma_timer_ends(Timer::spec_new(duration).spec_start(), dts);
}

} // verus!
