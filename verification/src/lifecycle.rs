//! The per-run state machine: `Launched → Running → Exited(code) |
//! Stopped`. Both outcomes are terminal; no transition leads back to a
//! live state, which is the shape behind the single-removal rule of the
//! registry.

use vstd::prelude::*;

verus! {

/// Where one run stands in its life.
#[derive(Clone, Copy, Debug, PartialEq, Eq, Structural)]
pub enum RunPhase {
    /// The launch request was accepted and the child process started.
    Launched,
    /// The run is tracked and its output is being multiplexed.
    Running,
    /// The process exited on its own; the code is absent when the
    /// platform could not report one.
    Exited(Option<i32>),
    /// The run was removed by an explicit stop and its process group
    /// signalled.
    Stopped,
}

/// What happens to one run.
#[derive(Clone, Copy, Debug, PartialEq, Eq, Structural)]
pub enum RunStep {
    /// The launcher finished its bookkeeping; the watchers are attached.
    Attach,
    /// The exit watcher confirmed the process gone.
    ExitDetected(Option<i32>),
    /// The cancellation controller removed the run.
    StopRequested,
}

impl RunPhase {
    /// A phase no event can leave.
    pub open spec fn is_terminal(self) -> bool {
        self is Exited || self is Stopped
    }

    /// The phase after `step` happens: attaching makes a launched run
    /// live, exit detection and stop requests settle a live run, and a
    /// terminal phase absorbs everything.
    pub open spec fn spec_advance(self, step: RunStep) -> RunPhase {
        if self.is_terminal() {
            self
        } else {
            match step {
                RunStep::Attach => RunPhase::Running,
                RunStep::ExitDetected(code) => RunPhase::Exited(code),
                RunStep::StopRequested => RunPhase::Stopped,
            }
        }
    }

    /// Advances the phase by one event.
    pub fn advance(self, step: RunStep) -> (r: RunPhase)
        ensures
            r == self.spec_advance(step),
    {
        if matches!(self, RunPhase::Exited(_)) || matches!(self, RunPhase::Stopped) {
            self
        } else {
            match step {
                RunStep::Attach => RunPhase::Running,
                RunStep::ExitDetected(code) => RunPhase::Exited(code),
                RunStep::StopRequested => RunPhase::Stopped,
            }
        }
    }
}

/// A run that has exited or been stopped stays that way: no sequence of
/// further events changes its phase, so neither outcome can be reached
/// twice and no run returns to `Running`.
pub proof fn lemma_terminal_is_final(p: RunPhase, steps: Seq<RunStep>)
    requires
        p.is_terminal(),
    ensures
        steps.fold_left(p, |q: RunPhase, s: RunStep| q.spec_advance(s)) == p,
    decreases steps.len(),
{
    if steps.len() > 0 {
        lemma_terminal_is_final(p, steps.drop_last());
    }
}

} // verus!
