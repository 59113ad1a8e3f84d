//! The exit watcher's decision: when a poll of the child reports that it
//! has exited, remove the run from the registry and hand back the single
//! terminal notification — but only if the run was still tracked. If a
//! concurrent stop already removed it, the watcher stays silent, so the
//! terminal event for a run is emitted exactly once, by whichever actor
//! performed the removal.

use vstd::prelude::*;
use crate::registry::{Registry, RunData};
use crate::events::{ScriptLogPayload, ScriptExitedPayload, spec_stderr_tag};
use crate::events::{stdout_log_events, stderr_log_events};

verus! {

/// Settles a run whose process was observed to have exited: removes it
/// from the registry and builds its terminal notification. Returns `None`
/// — and changes nothing — exactly when the run is no longer tracked,
/// because a concurrent stop already removed it; the stop then owns the
/// terminal emission and this watcher must not duplicate it.
pub fn finish_run(reg: &mut Registry, run_id: &String, exit_code: Option<i32>) -> (r: Option<
    ScriptExitedPayload,
>)
    requires
        old(reg).wf(),
    ensures
        final(reg).wf(),
        r is Some <==> old(reg)@.contains_key(run_id@),
        final(reg)@ == old(reg)@.remove(run_id@),
        !old(reg)@.contains_key(run_id@) ==> final(reg)@ == old(reg)@ && r is None,
        r is Some ==> r.unwrap().run_id@ == run_id@
            && r.unwrap().label@ == old(reg)@[run_id@].label
            && r.unwrap().exit_code == exit_code,
{
    match reg.remove(run_id) {
        Some(run) => Some(ScriptExitedPayload { run_id: run.run_id, label: run.label, exit_code }),
        None => None,
    }
}

/// Once a run has been removed — by the watcher on natural exit or by a
/// stop — it is gone for good: no later snapshot can show it, and a
/// second removal attempt finds nothing, so no second terminal event can
/// be emitted for it. Every other run is untouched by the removal.
pub proof fn lemma_removal_is_final(m: Map<Seq<char>, RunData>, k: Seq<char>)
    ensures
        !m.remove(k).contains_key(k),
        forall|k2: Seq<char>| k2 != k ==> m.remove(k).contains_key(k2) == m.contains_key(k2),
        forall|k2: Seq<char>| k2 != k && m.contains_key(k2) ==> m.remove(k)[k2] == m[k2],
{
}

/// Everything a consumer observes of one finished run, in order: the
/// stdout events, then the stderr events, then — if the run was still
/// tracked when its exit was detected — the one terminal notification.
pub struct RunTranscript {
    pub stdout_events: Vec<ScriptLogPayload>,
    pub stderr_events: Vec<ScriptLogPayload>,
    pub terminal: Option<ScriptExitedPayload>,
}

/// Plays out the full observable life of one run whose process wrote the
/// given lines and then exited: every stdout line yields one event in
/// stream order, every stderr line one tagged event in stream order, and
/// the run's removal yields exactly one terminal notification carrying
/// the exit code — or none, if a concurrent stop had already removed the
/// run.
pub fn run_transcript(
    reg: &mut Registry,
    run_id: &String,
    stdout_lines: &Vec<String>,
    stderr_lines: &Vec<String>,
    exit_code: Option<i32>,
) -> (t: RunTranscript)
    requires
        old(reg).wf(),
    ensures
        final(reg).wf(),
        t.stdout_events@.len() == stdout_lines@.len(),
        forall|i: int| 0 <= i < stdout_lines@.len()
            ==> (#[trigger] t.stdout_events@[i]).run_id@ == run_id@
                && t.stdout_events@[i].line@ == stdout_lines@[i]@,
        t.stderr_events@.len() == stderr_lines@.len(),
        forall|i: int| 0 <= i < stderr_lines@.len()
            ==> (#[trigger] t.stderr_events@[i]).run_id@ == run_id@
                && t.stderr_events@[i].line@ == spec_stderr_tag() + stderr_lines@[i]@,
        t.terminal is Some <==> old(reg)@.contains_key(run_id@),
        final(reg)@ == old(reg)@.remove(run_id@),
        t.terminal is Some ==> t.terminal.unwrap().run_id@ == run_id@
            && t.terminal.unwrap().label@ == old(reg)@[run_id@].label
            && t.terminal.unwrap().exit_code == exit_code,
{
    let stdout_events = stdout_log_events(run_id, stdout_lines);
    let stderr_events = stderr_log_events(run_id, stderr_lines);
    let terminal = finish_run(reg, run_id, exit_code);
    RunTranscript { stdout_events, stderr_events, terminal }
}

} // verus!
