use vstd::prelude::*;

verus! {

/// Whether a timer stops when it first completes or starts over.
#[derive(Clone, Copy, Debug, PartialEq, Eq, Structural)]
pub enum TimerMode {
    Once,
    Repeating,
}

/// A countdown measured in milliseconds.
///
/// A `Once` timer counts up to its duration and stays there; a `Repeating`
/// timer wraps around. `just_finished` reports whether the last `tick`
/// completed the timer at least once.
#[derive(Clone, Copy, Debug)]
pub struct Timer {
    pub duration: u64,
    pub elapsed: u64,
    pub mode: TimerMode,
    pub just_finished: bool,
}

impl Timer {
    pub open spec fn wf(self) -> bool {
        &&& self.duration > 0
        &&& match self.mode {
            TimerMode::Once => self.elapsed <= self.duration,
            TimerMode::Repeating => self.elapsed < self.duration,
        }
    }

    /// A `Once` timer has finished when it has reached its duration.
    pub open spec fn spec_finished(self) -> bool {
        self.mode == TimerMode::Once && self.elapsed == self.duration
    }

    /// The timer after `dt` more milliseconds have passed.
    pub open spec fn ticked(self, dt: nat) -> Timer {
        match self.mode {
            TimerMode::Once => if self.elapsed == self.duration {
                Timer { just_finished: false, ..self }
            } else if self.elapsed + dt >= self.duration {
                Timer { elapsed: self.duration, just_finished: true, ..self }
            } else {
                Timer { elapsed: (self.elapsed + dt) as u64, just_finished: false, ..self }
            },
            TimerMode::Repeating => Timer {
                elapsed: ((self.elapsed + dt) % (self.duration as int)) as u64,
                just_finished: self.elapsed + dt >= self.duration,
                ..self
            },
        }
    }

    pub proof fn lemma_ticked_wf(self, dt: nat)
        requires
            self.wf(),
        ensures
            self.ticked(dt).wf(),
            self.ticked(dt).mode == self.mode,
            self.ticked(dt).duration == self.duration,
    {
    }

    pub fn new(duration: u64, mode: TimerMode) -> (t: Timer)
        requires
            duration > 0,
        ensures
            t.wf(),
            t.duration == duration,
            t.mode == mode,
            t.elapsed == 0,
            !t.just_finished,
    {
        Timer { duration, elapsed: 0, mode, just_finished: false }
    }

    pub fn finished(&self) -> (r: bool)
        ensures
            r == self.spec_finished(),
    {
        match self.mode {
            TimerMode::Once => self.elapsed == self.duration,
            TimerMode::Repeating => false,
        }
    }

    /// Advances the timer by `dt` milliseconds.
    pub fn tick(&mut self, dt: u64)
        requires
            old(self).wf(),
        ensures
            final(self).wf(),
            *final(self) == old(self).ticked(dt as nat),
    {
        match self.mode {
            TimerMode::Once => {
                if self.elapsed == self.duration {
                    self.just_finished = false;
                } else if dt >= self.duration - self.elapsed {
                    self.elapsed = self.duration;
                    self.just_finished = true;
                } else {
                    self.elapsed = self.elapsed + dt;
                    self.just_finished = false;
                }
            },
            TimerMode::Repeating => {
                let total: u128 = self.elapsed as u128 + dt as u128;
                self.elapsed = (total % (self.duration as u128)) as u64;
                self.just_finished = total >= self.duration as u128;
            },
        }
    }

    /// Starts the timer over from zero.
    pub fn reset(&mut self)
        requires
            old(self).wf(),
        ensures
            final(self).wf(),
            *final(self) == (Timer { elapsed: 0, just_finished: false, ..*old(self) }),
    {
        self.elapsed = 0;
        self.just_finished = false;
    }
}

} // verus!
