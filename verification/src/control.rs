//! Pausing, resuming and stepping a run.
use vstd::prelude::*;

verus! {

/// What a worker thread is told when it asks to go on.
#[derive(Clone, Copy, Debug, PartialEq, Eq, Structural)]
pub enum Turn {
    /// Go on.
    Go,
    /// Wait, and ask again.
    Wait,
    /// The run is over.
    Quit,
}

/// The state that the user's pause and step commands act on.
#[derive(Clone, Copy, Debug, PartialEq, Eq, Structural)]
pub struct RunControl {
    pub paused: bool,
    pub step_mode: bool,
    pub step_epoch: u64,
}

impl RunControl {
    /// The control with another pause flag.
    pub open spec fn with_paused(self, paused: bool) -> RunControl {
        RunControl { paused, ..self }
    }

    /// The control one step further.
    pub open spec fn stepped(self) -> RunControl {
        RunControl {
            step_epoch: if self.step_epoch == u64::MAX {
                0
            } else {
                (self.step_epoch + 1) as u64
            },
            ..self
        }
    }

    /// What a worker is told that has taken all steps up to `last_epoch`. In
    /// step mode it goes once for every new step, and pausing means nothing;
    /// otherwise it goes unless the run is paused.
    pub open spec fn turn(self, running: bool, last_epoch: u64) -> Turn {
        if !running {
            Turn::Quit
        } else if self.step_mode {
            if self.step_epoch > last_epoch {
                Turn::Go
            } else {
                Turn::Wait
            }
        } else if self.paused {
            Turn::Wait
        } else {
            Turn::Go
        }
    }

    /// The control after the user's main command: a step in step mode, and
    /// otherwise a pause or its end.
    pub open spec fn advanced(self) -> RunControl {
        if self.step_mode {
            self.stepped()
        } else {
            self.with_paused(!self.paused)
        }
    }

    /// A run at its start, not paused.
    pub fn new(step_mode: bool) -> (c: Self)
        ensures
            c == (RunControl { paused: false, step_mode, step_epoch: 0 }),
    {
        RunControl { paused: false, step_mode, step_epoch: 0 }
    }

    /// Whether the run is paused.
    pub fn is_paused(&self) -> (r: bool)
        ensures
            r == self.paused,
    {
        self.paused
    }

    /// Pauses or resumes. Waiting workers are to be woken when this says so.
    pub fn set_paused(&mut self, paused: bool) -> (wake: bool)
        ensures
            *final(self) == old(self).with_paused(paused),
            wake == !paused,
            final(self).paused == paused,
            final(self).step_mode == old(self).step_mode,
            final(self).step_epoch == old(self).step_epoch,
    {
        self.paused = paused;
        !paused
    }

    /// Allows one more step.
    pub fn step_once(&mut self)
        ensures
            *final(self) == old(self).stepped(),
            old(self).step_epoch < u64::MAX ==> final(self).step_epoch == old(self).step_epoch + 1,
            old(self).step_epoch == u64::MAX ==> final(self).step_epoch == 0,
            final(self).paused == old(self).paused,
            final(self).step_mode == old(self).step_mode,
    {
        self.step_epoch = self.step_epoch.wrapping_add(1);
    }

    /// Tells a worker whether its turn has come, and notes the step it takes.
    pub fn wait_for_turn(&self, running: bool, last_epoch: &mut u64) -> (turn: Turn)
        ensures
            turn == self.turn(running, *old(last_epoch)),
            turn == Turn::Quit <==> !running,
            running && self.step_mode ==> (turn == Turn::Go
                <==> self.step_epoch > *old(last_epoch)),
            running && !self.step_mode ==> (turn == Turn::Go <==> !self.paused),
            *final(last_epoch) == (if turn == Turn::Go && self.step_mode {
                self.step_epoch
            } else {
                *old(last_epoch)
            }),
    {
        if !running {
            return Turn::Quit;
        }
        if self.step_mode {
            if self.step_epoch > *last_epoch {
                *last_epoch = self.step_epoch;
                return Turn::Go;
            }
        } else if !self.paused {
            return Turn::Go;
        }
        Turn::Wait
    }

    /// Tells a worker whether the pause, if there is one, is over.
    pub fn wait_if_paused(&self, running: bool) -> (turn: Turn)
        ensures
            turn == self.with_step_mode(false).turn(running, 0),
            turn == Turn::Quit <==> !running,
            turn == Turn::Wait <==> running && self.paused,
            turn == Turn::Go <==> running && !self.paused,
    {
        if !running {
            Turn::Quit
        } else if self.paused {
            Turn::Wait
        } else {
            Turn::Go
        }
    }

    /// The control in another mode.
    pub open spec fn with_step_mode(self, step_mode: bool) -> RunControl {
        RunControl { step_mode, ..self }
    }

    /// Whether a worker rests between two turns: not when stepped by hand.
    pub fn rests(&self) -> (r: bool)
        ensures
            r == !self.step_mode,
    {
        !self.step_mode
    }

    /// Whether the whole run stands still until the user resumes it. Stepping
    /// by hand knows no such pause.
    pub fn is_frozen(&self) -> (r: bool)
        ensures
            r == (self.paused && !self.step_mode),
    {
        self.paused && !self.step_mode
    }

    /// The user's main command, by key or button. Waiting workers are to be
    /// woken when this says so.
    pub fn advance(&mut self) -> (wake: bool)
        ensures
            *final(self) == old(self).advanced(),
            wake == (old(self).step_mode || old(self).paused),
            final(self).step_mode == old(self).step_mode,
            old(self).step_mode ==> final(self).paused == old(self).paused,
            old(self).step_mode && old(self).step_epoch < u64::MAX ==> final(self).step_epoch
                == old(self).step_epoch + 1,
            old(self).step_mode && old(self).step_epoch == u64::MAX ==> final(self).step_epoch == 0,
            !old(self).step_mode ==> final(self).paused == !old(self).paused
                && final(self).step_epoch == old(self).step_epoch,
    {
        if self.step_mode {
            self.step_once();
            true
        } else {
            let paused: bool = self.is_paused();
            self.set_paused(!paused)
        }
    }

    /// The caption of the button for the main command.
    pub fn button_label(&self) -> (text: &'static str)
        ensures
            text@ == (if self.step_mode {
                "Step"@
            } else if self.paused {
                "Resume"@
            } else {
                "Pause"@
            }),
    {
        if self.step_mode {
            "Step"
        } else if self.paused {
            "Resume"
        } else {
            "Pause"
        }
    }

    /// The hint at the key for the main command.
    pub fn key_hint(&self) -> (text: &'static str)
        ensures
            text@ == (if self.step_mode {
                "Space: step"@
            } else {
                "Space: pause/resume"@
            }),
    {
        if self.step_mode {
            "Space: step"
        } else {
            "Space: pause/resume"
        }
    }
}

/// A worker that asks between two commands is let go exactly if the run is not
/// over and there is a step it has not taken, or, without steps, no pause.
pub proof fn law_turns_come_with_steps_or_unpaused(c: RunControl, running: bool, last_epoch: u64)
    ensures
        c.turn(running, last_epoch) == Turn::Go <==> running && if c.step_mode {
            last_epoch < c.step_epoch
        } else {
            !c.paused
        },
        c.turn(running, last_epoch) == Turn::Quit <==> !running,
{
}

/// While a run is paused no worker goes on, and when it is resumed all do.
pub proof fn law_pause_holds_everybody(c: RunControl, last_epoch: u64)
    requires
        !c.step_mode,
    ensures
        c.with_paused(true).turn(true, last_epoch) == Turn::Wait,
        c.with_paused(false).turn(true, last_epoch) == Turn::Go,
        c.advanced().advanced() == c,
{
}

/// Each step lets a worker go exactly once: one that has taken every step so
/// far goes when a step is added, and then waits for the next.
pub proof fn law_step_lets_through_once(c: RunControl)
    requires
        c.step_mode,
        c.step_epoch < u64::MAX,
    ensures
        c.turn(true, c.step_epoch) == Turn::Wait,
        c.advanced().turn(true, c.step_epoch) == Turn::Go,
        c.advanced().turn(true, c.advanced().step_epoch) == Turn::Wait,
{
}

/// Once the run is over every worker quits, paused or not.
pub proof fn law_everybody_quits(c: RunControl, last_epoch: u64)
    ensures
        c.turn(false, last_epoch) == Turn::Quit,
{
}

} // verus!
