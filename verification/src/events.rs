//! Log events: the multiplexed view of a child's stdout and stderr. Each
//! complete line becomes one payload tagged with its run identifier;
//! stderr lines additionally carry a fixed textual marker so a consumer
//! can tell the two streams apart while reading a single event channel.
//! Lines of one stream keep their order; no order is promised between the
//! two streams of one run.

use vstd::prelude::*;

verus! {

/// Answer to a successful launch request: the identifier of the new run.
pub struct RunIdResponse {
    pub run_id: String,
}

/// One forwarded line of child output.
pub struct ScriptLogPayload {
    pub run_id: String,
    pub line: String,
}

/// The single terminal notification of a run: its identifier, its label,
/// and the exit code when the platform could report one. An absent code
/// is a valid terminal state, not an error.
pub struct ScriptExitedPayload {
    pub run_id: String,
    pub label: String,
    pub exit_code: Option<i32>,
}

/// The marker put in front of every stderr line.
pub open spec fn spec_stderr_tag() -> Seq<char> {
    "[stderr] "@
}

/// The log payload for one stdout line: the line is forwarded unchanged.
pub fn stdout_log_event(run_id: &String, line: String) -> (e: ScriptLogPayload)
    ensures
        e.run_id@ == run_id@,
        e.line == line,
{
    ScriptLogPayload { run_id: run_id.clone(), line }
}

/// The log payload for one stderr line: the line is forwarded with the
/// stderr marker in front, otherwise unchanged.
pub fn stderr_log_event(run_id: &String, line: &String) -> (e: ScriptLogPayload)
    ensures
        e.run_id@ == run_id@,
        e.line@ == spec_stderr_tag() + line@,
{
    let mut tagged = "[stderr] ".to_owned();
    tagged.append(line.as_str());
    ScriptLogPayload { run_id: run_id.clone(), line: tagged }
}

/// The events a consumer observes for a whole stdout stream: exactly one
/// per line, in stream order, each line unchanged.
pub fn stdout_log_events(run_id: &String, lines: &Vec<String>) -> (evs: Vec<ScriptLogPayload>)
    ensures
        evs@.len() == lines@.len(),
        forall|i: int| 0 <= i < lines@.len() ==> (#[trigger] evs@[i]).run_id@ == run_id@
            && evs@[i].line@ == lines@[i]@,
{
    let n = lines.len();
    let mut evs: Vec<ScriptLogPayload> = Vec::new();
    let mut i: usize = 0;
    while i < n
        invariant
            n == lines@.len(),
            0 <= i <= n,
            evs@.len() == i,
            forall|j: int| 0 <= j < i ==> (#[trigger] evs@[j]).run_id@ == run_id@
                && evs@[j].line@ == lines@[j]@,
        decreases n - i,
    {
        let e = stdout_log_event(run_id, lines[i].clone());
        evs.push(e);
        i = i + 1;
    }
    evs
}

/// The events a consumer observes for a whole stderr stream: exactly one
/// per line, in stream order, each tagged with the stderr marker.
pub fn stderr_log_events(run_id: &String, lines: &Vec<String>) -> (evs: Vec<ScriptLogPayload>)
    ensures
        evs@.len() == lines@.len(),
        forall|i: int| 0 <= i < lines@.len() ==> (#[trigger] evs@[i]).run_id@ == run_id@
            && evs@[i].line@ == spec_stderr_tag() + lines@[i]@,
{
    let n = lines.len();
    let mut evs: Vec<ScriptLogPayload> = Vec::new();
    let mut i: usize = 0;
    while i < n
        invariant
            n == lines@.len(),
            0 <= i <= n,
            evs@.len() == i,
            forall|j: int| 0 <= j < i ==> (#[trigger] evs@[j]).run_id@ == run_id@
                && evs@[j].line@ == spec_stderr_tag() + lines@[j]@,
        decreases n - i,
    {
        let e = stderr_log_event(run_id, &lines[i]);
        evs.push(e);
        i = i + 1;
    }
    evs
}

} // verus!
