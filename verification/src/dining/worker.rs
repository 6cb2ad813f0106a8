//! What a philosopher's thread does, step by step.
use vstd::prelude::*;

use crate::dining::table::AppState;

verus! {

/// Where a philosopher's thread stands.
#[derive(Clone, Copy, Debug, PartialEq, Eq, Structural)]
pub enum PhilPhase {
    /// Waiting for its turn.
    Turn,
    /// It has checked, and will act.
    Checked,
    /// Resting after the act.
    Resting,
    /// Finished.
    Over,
}

/// What the thread has to do before it goes on.
#[derive(Clone, Copy, Debug, PartialEq, Eq, Structural)]
pub enum PhilTask {
    /// Wait until the run is neither paused nor between steps.
    AwaitTurn,
    /// Let the others in.
    Yield,
    /// Sleep for a frame.
    Rest,
    /// Leave.
    Quit,
}

/// A philosopher's thread.
#[derive(Clone, Copy, Debug)]
pub struct PhilosopherWorker {
    pub id: usize,
    pub phase: PhilPhase,
}

impl PhilosopherWorker {
    /// A thread at its start, to wait for its first turn.
    pub fn new(id: usize) -> (w: Self)
        ensures
            w.id == id,
            w.phase == PhilPhase::Turn,
    {
        PhilosopherWorker { id, phase: PhilPhase::Turn }
    }

    /// The next phase, given whether the run goes on.
    pub open spec fn next_phase(self, running: bool) -> PhilPhase {
        match self.phase {
            PhilPhase::Turn => if running {
                PhilPhase::Checked
            } else {
                PhilPhase::Over
            },
            PhilPhase::Checked => PhilPhase::Resting,
            PhilPhase::Resting => if running {
                PhilPhase::Turn
            } else {
                PhilPhase::Over
            },
            PhilPhase::Over => PhilPhase::Over,
        }
    }

    /// What a phase waits for.
    pub open spec fn task_of(phase: PhilPhase) -> PhilTask {
        match phase {
            PhilPhase::Turn => PhilTask::AwaitTurn,
            PhilPhase::Checked => PhilTask::Yield,
            PhilPhase::Resting => PhilTask::Rest,
            PhilPhase::Over => PhilTask::Quit,
        }
    }

    /// Goes on once the last task is done, `running` saying whether the run
    /// still goes on: checks when a turn has come, acts once the others were
    /// let in, and otherwise leaves the table alone.
    pub fn step(&mut self, running: bool, app: &mut AppState) -> (task: PhilTask)
        requires
            old(app)@.laid(),
            old(self).id < old(app).count,
            old(self).phase == PhilPhase::Turn && running && old(app)@.counts_on(
                old(app).method,
                old(self).id as int,
            ) ==> old(app).counter + old(self).id <= usize::MAX,
            old(self).phase == PhilPhase::Checked && old(app)@.acted(old(self).id as int).state(
                old(self).id as int,
            ) == crate::dining::table::PhilState::IsFull && old(app)@.state(old(self).id as int)
                != crate::dining::table::PhilState::IsFull ==> old(app)@.meals(old(self).id as int)
                < usize::MAX,
        ensures
            final(self).id == old(self).id,
            final(self).phase == old(self).next_phase(running),
            task == Self::task_of(final(self).phase),
            final(app)@ == (if old(self).phase == PhilPhase::Turn && running {
                old(app)@.checked(old(self).id as int)
            } else if old(self).phase == PhilPhase::Checked {
                old(app)@.acted(old(self).id as int)
            } else {
                old(app)@
            }),
    {
        match self.phase {
            PhilPhase::Turn => {
                if running {
                    app.check_step_for(self.id);
                    self.phase = PhilPhase::Checked;
                    PhilTask::Yield
                } else {
                    self.phase = PhilPhase::Over;
                    PhilTask::Quit
                }
            },
            PhilPhase::Checked => {
                app.act_step_for(self.id);
                self.phase = PhilPhase::Resting;
                PhilTask::Rest
            },
            PhilPhase::Resting => {
                if running {
                    self.phase = PhilPhase::Turn;
                    PhilTask::AwaitTurn
                } else {
                    self.phase = PhilPhase::Over;
                    PhilTask::Quit
                }
            },
            PhilPhase::Over => PhilTask::Quit,
        }
    }
}

/// When the run is over a philosopher's thread is gone after two more tasks at
/// most: at once if it waits for its turn or rests, and else once it has acted.
pub proof fn law_philosophers_leave(w: PhilosopherWorker)
    ensures
        ({
            let next = w.next_phase(false);
            let last = PhilosopherWorker { phase: next, ..w }.next_phase(false);
            &&& w.phase != PhilPhase::Checked ==> next == PhilPhase::Over
            &&& w.phase == PhilPhase::Checked ==> next == PhilPhase::Resting
            &&& last == PhilPhase::Over
            &&& PhilosopherWorker::task_of(last) == PhilTask::Quit
        }),
{
}

} // verus!
