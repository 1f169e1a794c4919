//! Countdown timers that the caller advances by the time that has passed.

use vstd::prelude::*;

verus! {

/// What a timer does once its time is up.
#[derive(Debug, Clone, Copy, PartialEq, Eq, Structural)]
pub enum TimerMode {
    /// The timer stops, and stays finished until it is reset.
    Once,
    /// The timer starts over, keeping the time by which it overran.
    Repeating,
}

/// A countdown in microseconds.
#[derive(Debug, Clone, Copy, PartialEq, Eq, Structural)]
pub struct Timer {
    pub duration: u64,
    pub elapsed: u64,
    pub mode: TimerMode,
    pub finished: bool,
    pub just_finished: bool,
}

impl Timer {
    /// The timer as it is made and as a reset leaves it.
    pub open spec fn fresh(duration: u64, mode: TimerMode) -> Timer {
        Timer { duration, elapsed: 0, mode, finished: false, just_finished: false }
    }

    /// The timer after `delta` microseconds more.
    ///
    /// A finished one-shot timer stands still. Otherwise the time is added,
    /// as far as the counter reaches; the timer finishes when the time has
    /// reached its duration. A one-shot timer then stops at its duration; a
    /// repeating one keeps what is left over after whole periods.
    pub open spec fn ticked(self, delta: u64) -> Timer {
        let total = if self.elapsed + delta > u64::MAX { u64::MAX as int } else { self.elapsed + delta };
        if self.mode == TimerMode::Once && self.finished {
            Timer { just_finished: false, ..self }
        } else if total < self.duration {
            Timer { elapsed: total as u64, finished: false, just_finished: false, ..self }
        } else if self.mode == TimerMode::Once {
            Timer { elapsed: self.duration, finished: true, just_finished: true, ..self }
        } else if self.duration == 0 {
            Timer { elapsed: 0, finished: true, just_finished: true, ..self }
        } else {
            Timer {
                elapsed: (total % self.duration as int) as u64,
                finished: true,
                just_finished: true,
                ..self
            }
        }
    }

    /// A timer of `duration` microseconds that has not started.
    pub fn new(duration: u64, mode: TimerMode) -> (timer: Timer)
        ensures
            timer == Timer::fresh(duration, mode),
    {
        Timer { duration, elapsed: 0, mode, finished: false, just_finished: false }
    }

    /// A timer of `millis` milliseconds that has not started.
    pub fn from_millis(millis: u32, mode: TimerMode) -> (timer: Timer)
        ensures
            timer == Timer::fresh((millis * 1000) as u64, mode),
    {
        Timer::new(millis as u64 * 1000, mode)
    }

    /// Advances the timer by `delta` microseconds.
    pub fn tick(&mut self, delta: u64)
        ensures
            *final(self) == old(self).ticked(delta),
    {
        if self.mode == TimerMode::Once && self.finished {
            self.just_finished = false;
            return ;
        }
        let total: u64 = if delta > u64::MAX - self.elapsed {
            u64::MAX
        } else {
            self.elapsed + delta
        };
        if total < self.duration {
            self.elapsed = total;
            self.finished = false;
            self.just_finished = false;
        } else {
            self.finished = true;
            self.just_finished = true;
            if self.mode == TimerMode::Once {
                self.elapsed = self.duration;
            } else if self.duration == 0 {
                self.elapsed = 0;
            } else {
                self.elapsed = total % self.duration;
            }
        }
    }

    /// Whether the time is up.
    pub fn finished(&self) -> (done: bool)
        ensures
            done == self.finished,
    {
        self.finished
    }

    /// Whether the time ran out during the last tick.
    pub fn just_finished(&self) -> (done: bool)
        ensures
            done == self.just_finished,
    {
        self.just_finished
    }

    /// Starts the countdown over.
    pub fn reset(&mut self)
        ensures
            *final(self) == Timer::fresh(old(self).duration, old(self).mode),
    {
        self.elapsed = 0;
        self.finished = false;
        self.just_finished = false;
    }
}

} // verus!
