//! A pausable countdown in milliseconds, with a finished edge and a duration
//! that can grow while it runs.

use vstd::prelude::*;

verus! {

/// What the countdown does when it runs out.
#[derive(Clone, Copy, Debug, PartialEq, Eq, Structural)]
pub enum TimerMode {
    /// It stops, finished.
    Once,
    /// It starts over from zero and keeps running.
    Repeating,
}

#[derive(Clone, Copy, Debug, PartialEq, Eq, Structural)]
pub enum TimerState {
    Running,
    Paused,
    Finished,
}

/// The round countdown. All times are in milliseconds.
pub struct GameTimer {
    pub duration: u64,
    pub elapsed: u64,
    pub state: TimerState,
    pub mode: TimerMode,
}

impl GameTimer {
    /// Elapsed time never passes the duration, and a finished countdown has
    /// used all of it.
    pub open spec fn wf(&self) -> bool {
        &&& self.elapsed <= self.duration
        &&& self.state == TimerState::Finished ==> self.elapsed == self.duration
    }

    /// The countdown after `delta` more milliseconds of play.
    pub open spec fn advanced(self, delta: u64) -> GameTimer {
        if self.state != TimerState::Running {
            self
        } else if self.elapsed + delta < self.duration {
            GameTimer { elapsed: (self.elapsed + delta) as u64, ..self }
        } else {
            match self.mode {
                TimerMode::Once => GameTimer {
                    elapsed: self.duration,
                    state: TimerState::Finished,
                    ..self
                },
                TimerMode::Repeating => GameTimer { elapsed: 0, ..self },
            }
        }
    }

    /// Whether `delta` more milliseconds run the countdown out.
    pub open spec fn runs_out(self, delta: u64) -> bool {
        self.state == TimerState::Running && self.elapsed + delta >= self.duration
    }

    pub open spec fn paused_spec(self) -> GameTimer {
        if self.state == TimerState::Running {
            GameTimer { state: TimerState::Paused, ..self }
        } else {
            self
        }
    }

    pub open spec fn unpaused_spec(self) -> GameTimer {
        if self.state == TimerState::Paused {
            GameTimer { state: TimerState::Running, ..self }
        } else {
            self
        }
    }

    pub open spec fn extended(self, extra: u64) -> GameTimer {
        if self.state == TimerState::Finished {
            self
        } else {
            GameTimer { duration: (self.duration + extra) as u64, ..self }
        }
    }

    /// A running countdown of `duration` from zero.
    pub open spec fn from_millis_spec(duration: u64, mode: TimerMode) -> GameTimer {
        GameTimer { duration, elapsed: 0, state: TimerState::Running, mode }
    }

    pub open spec fn reset_spec(self, duration: u64) -> GameTimer {
        GameTimer { duration, elapsed: 0, state: TimerState::Running, ..self }
    }

    /// A paused countdown of no time, in mode `Once`.
    pub fn new() -> (t: GameTimer)
        ensures
            t.wf(),
            t.duration == 0,
            t.elapsed == 0,
            t.state == TimerState::Paused,
            t.mode == TimerMode::Once,
    {
        GameTimer { duration: 0, elapsed: 0, state: TimerState::Paused, mode: TimerMode::Once }
    }

    /// A running countdown of `duration` in the given mode.
    pub fn from_millis(duration: u64, mode: TimerMode) -> (t: GameTimer)
        ensures
            t.wf(),
            t == GameTimer::from_millis_spec(duration, mode),
    {
        GameTimer { duration, elapsed: 0, state: TimerState::Running, mode }
    }

    /// Lets `delta` milliseconds pass. Returns whether the countdown ran out
    /// during this call: a `Once` countdown is then finished, a `Repeating`
    /// one starts over.
    pub fn advance(&mut self, delta: u64) -> (ran_out: bool)
        requires
            old(self).wf(),
        ensures
            final(self).wf(),
            *final(self) == old(self).advanced(delta),
            ran_out == old(self).runs_out(delta),
    {
        if self.state != TimerState::Running {
            return false;
        }
        if delta < self.duration - self.elapsed {
            self.elapsed = self.elapsed + delta;
            false
        } else {
            match self.mode {
                TimerMode::Once => {
                    self.elapsed = self.duration;
                    self.state = TimerState::Finished;
                },
                TimerMode::Repeating => {
                    self.elapsed = 0;
                },
            }
            true
        }
    }

    /// Stops the clock; a no-op unless it is running.
    pub fn pause(&mut self)
        requires
            old(self).wf(),
        ensures
            final(self).wf(),
            *final(self) == old(self).paused_spec(),
    {
        if self.state == TimerState::Running {
            self.state = TimerState::Paused;
        }
    }

    /// Restarts the clock; a no-op unless it is paused.
    pub fn unpause(&mut self)
        requires
            old(self).wf(),
        ensures
            final(self).wf(),
            *final(self) == old(self).unpaused_spec(),
    {
        if self.state == TimerState::Paused {
            self.state = TimerState::Running;
        }
    }

    /// Adds `extra` to the duration, keeping the elapsed time; a no-op once
    /// finished.
    pub fn extend(&mut self, extra: u64)
        requires
            old(self).wf(),
            old(self).duration + extra <= u64::MAX,
        ensures
            final(self).wf(),
            *final(self) == old(self).extended(extra),
    {
        if self.state != TimerState::Finished {
            self.duration = self.duration + extra;
        }
    }

    /// Starts over with a new duration, running, in the same mode.
    pub fn reset(&mut self, duration: u64)
        requires
            old(self).wf(),
        ensures
            final(self).wf(),
            *final(self) == old(self).reset_spec(duration),
    {
        self.duration = duration;
        self.elapsed = 0;
        self.state = TimerState::Running;
    }

    /// Starts over with a new duration, paused, in the same mode.
    pub fn reset_paused(&mut self, duration: u64)
        requires
            old(self).wf(),
        ensures
            final(self).wf(),
            *final(self) == (GameTimer { state: TimerState::Paused, ..old(self).reset_spec(duration) }),
    {
        self.duration = duration;
        self.elapsed = 0;
        self.state = TimerState::Paused;
    }

    pub fn set_mode(&mut self, mode: TimerMode)
        requires
            old(self).wf(),
        ensures
            final(self).wf(),
            *final(self) == (GameTimer { mode, ..*old(self) }),
    {
        self.mode = mode;
    }

    /// The time left.
    pub fn remaining_millis(&self) -> (r: u64)
        requires
            self.wf(),
        ensures
            r == self.duration - self.elapsed,
    {
        self.duration - self.elapsed
    }

    pub fn finished(&self) -> (r: bool)
        ensures
            r == (self.state == TimerState::Finished),
    {
        self.state == TimerState::Finished
    }

    pub fn paused(&self) -> (r: bool)
        ensures
            r == (self.state == TimerState::Paused),
    {
        self.state == TimerState::Paused
    }
}

impl Default for GameTimer {
    fn default() -> (t: GameTimer)
        ensures
            t.wf(),
            t == (GameTimer { duration: 0, elapsed: 0, state: TimerState::Paused, mode: TimerMode::Once }),
    {
        GameTimer::new()
    }
}

/// A `Once` countdown reset to some duration and then given that whole
/// duration runs out in that step and is finished, with nothing left; from
/// then on no further step runs it out again or changes it.
pub proof fn full_run_finishes_once(t: GameTimer, duration: u64, later: u64)
    requires
        t.wf(),
        t.mode == TimerMode::Once,
    ensures
        t.reset_spec(duration).runs_out(duration),
        t.reset_spec(duration).advanced(duration).state == TimerState::Finished,
        t.reset_spec(duration).advanced(duration).elapsed == duration,
        !t.reset_spec(duration).advanced(duration).runs_out(later),
        t.reset_spec(duration).advanced(duration).advanced(later) == t.reset_spec(duration).advanced(
            duration,
        ),
{
}

/// Extending never lowers the elapsed time, and adds the extra time to the
/// duration of any countdown that has not finished.
pub proof fn extend_keeps_elapsed(t: GameTimer, extra: u64)
    requires
        t.wf(),
        t.duration + extra <= u64::MAX,
    ensures
        t.extended(extra).elapsed == t.elapsed,
        t.state != TimerState::Finished ==> t.extended(extra).duration == t.duration + extra,
        t.extended(extra).wf(),
{
}

/// Time that passes while paused is not counted: pausing, advancing and
/// unpausing leaves the elapsed time and the duration as they were, and a
/// running countdown comes back exactly as it was.
pub proof fn paused_time_is_not_counted(t: GameTimer, delta: u64)
    requires
        t.wf(),
    ensures
        t.paused_spec().advanced(delta).unpaused_spec().elapsed == t.elapsed,
        t.paused_spec().advanced(delta).unpaused_spec().duration == t.duration,
        !t.paused_spec().runs_out(delta),
        t.state == TimerState::Running ==> t.paused_spec().advanced(delta).unpaused_spec() == t,
{
}

} // verus!
