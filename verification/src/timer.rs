use vstd::prelude::*;

verus! {

/// Nanoseconds in one second.
pub const NANOS_PER_SECOND: u64 = 1_000_000_000;

/// What a timer does once its duration is reached.
#[derive(Clone, Copy, Debug, PartialEq, Eq, Structural)]
pub enum TimerMode {
    /// Stop, and stay finished until reset.
    Once,
    /// Start over, keeping the time by which the duration was overshot.
    Repeating,
}

/// A countdown over simulated time, in nanoseconds.
#[derive(Clone, Copy, Debug, PartialEq, Eq, Structural)]
pub struct Timer {
    pub elapsed: u64,
    pub duration: u64,
    pub mode: TimerMode,
    pub finished: bool,
    pub times_finished_this_tick: u32,
}

/// A timer of the given duration and mode on which no time has passed.
pub open spec fn fresh(duration: u64, mode: TimerMode) -> Timer {
    Timer { elapsed: 0, duration, mode, finished: false, times_finished_this_tick: 0 }
}

/// The timer `t` after `delta` more nanoseconds.
///
/// A finished one-shot timer no longer moves. Otherwise the time is added, and
/// the timer is finished when its duration is reached. A repeating timer then
/// keeps the remainder and counts how often the duration fits, reduced to 32
/// bits (with a zero duration: no remainder, and the largest count); a one-shot
/// timer stops at its duration.
pub open spec fn advanced(t: Timer, delta: u64) -> Timer {
    let total = t.elapsed + delta;
    if t.mode == TimerMode::Once && t.finished {
        Timer { times_finished_this_tick: 0, ..t }
    } else if total < t.duration {
        Timer { elapsed: total as u64, finished: false, times_finished_this_tick: 0, ..t }
    } else if t.mode == TimerMode::Once {
        Timer { elapsed: t.duration, finished: true, times_finished_this_tick: 1, ..t }
    } else if t.duration == 0 {
        Timer { elapsed: 0, finished: true, times_finished_this_tick: u32::MAX, ..t }
    } else {
        Timer {
            elapsed: (total % (t.duration as int)) as u64,
            finished: true,
            times_finished_this_tick: ((total / (t.duration as int)) % 0x1_0000_0000) as u32,
            ..t
        }
    }
}

/// Hands the timer to `bevy::time::Timer`: builds one with `Timer::new` from the
/// duration and mode, gives it the elapsed time with `set_elapsed`, calls `tick`
/// with `delta`, and reads `elapsed`, `finished` and `times_finished_this_tick`
/// back. The contract restates what `tick` does to a timer that is neither
/// paused nor a finished one-shot. The elapsed time that is read back is less
/// than the duration or equal to it, so it fits in 64 bits of nanoseconds.
#[verifier::external_body]
fn host_tick(timer: &Timer, delta: u64) -> (ticked: Timer)
    requires
        !(timer.mode == TimerMode::Once && timer.finished),
    ensures
        ticked == advanced(*timer, delta),
{
    let mode = match timer.mode {
        TimerMode::Once => bevy::time::TimerMode::Once,
        TimerMode::Repeating => bevy::time::TimerMode::Repeating,
    };
    let mut host = bevy::time::Timer::new(std::time::Duration::from_nanos(timer.duration), mode);
    host.set_elapsed(std::time::Duration::from_nanos(timer.elapsed));
    host.tick(std::time::Duration::from_nanos(delta));
    Timer {
        elapsed: host.elapsed().as_nanos() as u64,
        duration: timer.duration,
        mode: timer.mode,
        finished: host.finished(),
        times_finished_this_tick: host.times_finished_this_tick(),
    }
}

impl Timer {
    /// A fresh timer of `duration` nanoseconds.
    pub fn new(duration: u64, mode: TimerMode) -> (timer: Timer)
        ensures
            timer == fresh(duration, mode),
    {
        Timer { elapsed: 0, duration, mode, finished: false, times_finished_this_tick: 0 }
    }

    /// A fresh timer of `seconds` whole seconds.
    pub fn from_seconds(seconds: u32, mode: TimerMode) -> (timer: Timer)
        ensures
            timer == fresh((seconds * NANOS_PER_SECOND) as u64, mode),
            seconds * NANOS_PER_SECOND <= u64::MAX,
    {
        assert(seconds * NANOS_PER_SECOND <= u64::MAX) by (nonlinear_arith)
            requires
                seconds <= u32::MAX,
                NANOS_PER_SECOND == 1_000_000_000,
        ;
        Timer::new(seconds as u64 * NANOS_PER_SECOND, mode)
    }

    /// Whether the duration was reached: for a repeating timer, during the last
    /// tick; for a one-shot timer, at any time since the last reset.
    pub fn finished(&self) -> (yes: bool)
        ensures
            yes == self.finished,
    {
        self.finished
    }

    /// Whether the duration was crossed during the last tick.
    pub fn just_finished(&self) -> (yes: bool)
        ensures
            yes == (self.times_finished_this_tick > 0),
    {
        self.times_finished_this_tick > 0
    }

    /// Sets the duration and nothing else.
    pub fn set_duration(&mut self, duration: u64)
        ensures
            *final(self) == (Timer { duration, ..*old(self) }),
    {
        self.duration = duration;
    }

    /// Sets the elapsed time and nothing else.
    pub fn set_elapsed(&mut self, elapsed: u64)
        ensures
            *final(self) == (Timer { elapsed, ..*old(self) }),
    {
        self.elapsed = elapsed;
    }

    /// Starts the countdown over: no time elapsed, not finished.
    pub fn reset(&mut self)
        ensures
            *final(self) == (Timer {
                elapsed: 0,
                finished: false,
                times_finished_this_tick: 0,
                ..*old(self)
            }),
    {
        self.elapsed = 0;
        self.finished = false;
        self.times_finished_this_tick = 0;
    }

    /// Advances the timer by `delta` nanoseconds.
    pub fn tick(&mut self, delta: u64)
        ensures
            *final(self) == advanced(*old(self), delta),
    {
        if self.mode == TimerMode::Once && self.finished {
            self.times_finished_this_tick = 0;
        } else {
            let ticked = host_tick(self, delta);
            *self = ticked;
        }
    }
}

/// A repeating timer has just finished exactly when the tick has carried its
/// elapsed time up to its duration or past it; what is left over is less than
/// the duration. This holds of a tick that spans fewer than 2^32 periods, so
/// that their count is not cut short.
pub proof fn lemma_just_finished_iff_crossed(t: Timer, delta: u64)
    requires
        t.mode == TimerMode::Repeating,
        t.duration > 0,
        t.elapsed + delta < t.duration * 0x1_0000_0000,
    ensures
        (advanced(t, delta).times_finished_this_tick > 0) == (t.elapsed + delta >= t.duration),
        advanced(t, delta).finished == (t.elapsed + delta >= t.duration),
        t.elapsed + delta >= t.duration ==> advanced(t, delta).elapsed < t.duration,
        advanced(t, delta).elapsed + advanced(t, delta).times_finished_this_tick * t.duration
            == t.elapsed + delta,
{
    let total = t.elapsed + delta;
    let d = t.duration as int;
    if total >= d {
        let q = total / d;
        let r = total % d;
        assert(total == d * q + r && 0 <= r < d) by (nonlinear_arith)
            requires
                d > 0,
                q == total / d,
                r == total % d,
        ;
        assert(1 <= q < 0x1_0000_0000) by (nonlinear_arith)
            requires
                total == d * q + r,
                0 <= r < d,
                d <= total < d * 0x1_0000_0000,
        ;
        assert(q % 0x1_0000_0000 == q);
        assert(q * d == d * q) by (nonlinear_arith);
    }
}

} // verus!
