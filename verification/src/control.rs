//! The cancellation controller: stopping one run or all runs. A stop
//! removes the run from the registry first — transferring ownership of
//! the terminal emission to itself — and hands the caller a kill order:
//! signal the process group forcefully, then direct-kill the immediate
//! child as a fallback for platforms where group signalling is
//! unavailable or incomplete. Stopping an unknown run is a no-op.

use vstd::prelude::*;
use crate::registry::{Registry, Run, RunData, distinct_ids};
use crate::events::ScriptExitedPayload;

verus! {

/// What the caller must carry out for one stopped run: forcefully signal
/// the process group of `pid`, then kill `pid` itself, tolerating either
/// being a no-op; and deliver the terminal notification, whose exit code
/// is absent because a killed child's code is not observed.
pub struct StopAction {
    pub pid: u32,
    pub terminal: ScriptExitedPayload,
}

/// Stops one run: removes it from the registry and, if it was tracked,
/// returns the kill order and the run's single terminal notification.
/// For an unknown identifier — never launched, already exited, already
/// stopped — nothing changes and nothing is returned: the operation is
/// idempotent and never an error.
pub fn stop_run(reg: &mut Registry, run_id: &String) -> (r: Option<StopAction>)
    requires
        old(reg).wf(),
    ensures
        final(reg).wf(),
        r is Some <==> old(reg)@.contains_key(run_id@),
        final(reg)@ == old(reg)@.remove(run_id@),
        !old(reg)@.contains_key(run_id@) ==> final(reg)@ == old(reg)@ && r is None,
        r is Some ==> r.unwrap().pid == old(reg)@[run_id@].pid
            && r.unwrap().terminal.run_id@ == run_id@
            && r.unwrap().terminal.label@ == old(reg)@[run_id@].label
            && r.unwrap().terminal.exit_code is None,
{
    match reg.remove(run_id) {
        Some(run) => Some(
            StopAction {
                pid: run.pid,
                terminal: ScriptExitedPayload {
                    run_id: run.run_id,
                    label: run.label,
                    exit_code: None,
                },
            },
        ),
        None => None,
    }
}

/// Stops every tracked run: atomically drains the registry, then returns
/// one kill order and one terminal notification per drained run, each
/// run appearing exactly once. A snapshot taken afterwards can only show
/// runs launched after the drain.
pub fn stop_script(reg: &mut Registry) -> (r: Vec<StopAction>)
    requires
        old(reg).wf(),
    ensures
        final(reg).wf(),
        final(reg)@ =~= Map::<Seq<char>, RunData>::empty(),
        forall|i: int| 0 <= i < r@.len() ==> old(reg)@.contains_key(
            (#[trigger] r@[i]).terminal.run_id@)
            && old(reg)@[r@[i].terminal.run_id@].pid == r@[i].pid
            && old(reg)@[r@[i].terminal.run_id@].label == r@[i].terminal.label@
            && r@[i].terminal.exit_code is None,
        forall|k: Seq<char>| #[trigger] old(reg)@.contains_key(k)
            ==> exists|i: int| 0 <= i < r@.len() && (#[trigger] r@[i]).terminal.run_id@ == k,
        forall|i: int, j: int| 0 <= i < j < r@.len()
            ==> (#[trigger] r@[i]).terminal.run_id@ != (#[trigger] r@[j]).terminal.run_id@,
{
    let drained: Vec<Run> = reg.drain();
    let n = drained.len();
    let mut out: Vec<StopAction> = Vec::new();
    let mut i: usize = 0;
    while i < n
        invariant
            n == drained@.len(),
            0 <= i <= n,
            out@.len() == i,
            forall|j: int| 0 <= j < i ==> (#[trigger] out@[j]).pid == drained@[j].pid
                && out@[j].terminal.run_id@ == drained@[j].run_id@
                && out@[j].terminal.label@ == drained@[j].label@
                && out@[j].terminal.exit_code is None,
        decreases n - i,
    {
        let run = &drained[i];
        out.push(
            StopAction {
                pid: run.pid,
                terminal: ScriptExitedPayload {
                    run_id: run.run_id.clone(),
                    label: run.label.clone(),
                    exit_code: None,
                },
            },
        );
        i = i + 1;
    }
    proof {
        assert forall|k: Seq<char>| #[trigger] old(reg)@.contains_key(k) implies
            exists|i2: int| 0 <= i2 < out@.len() && (#[trigger] out@[i2]).terminal.run_id@ == k by {
            let j = choose|j: int| 0 <= j < drained@.len() && (#[trigger] drained@[j]).run_id@ == k;
            assert(out@[j].terminal.run_id@ == k);
        }
        assert(distinct_ids(drained@));
    }
    out
}

/// `m` after registering each of `entries` in turn.
pub open spec fn spec_insert_all(
    m: Map<Seq<char>, RunData>,
    entries: Seq<(Seq<char>, RunData)>,
) -> Map<Seq<char>, RunData>
    decreases entries.len(),
{
    if entries.len() == 0 {
        m
    } else {
        spec_insert_all(m, entries.drop_last()).insert(entries.last().0, entries.last().1)
    }
}

/// After a stop-all has drained the registry, a snapshot shows only runs
/// launched after the drain: whatever is visible once any number of new
/// runs were registered into the emptied table carries one of the new
/// identifiers — none of the previously running ones.
pub proof fn lemma_snapshot_after_stop_all(entries: Seq<(Seq<char>, RunData)>, k: Seq<char>)
    requires
        spec_insert_all(Map::empty(), entries).contains_key(k),
    ensures
        exists|i: int| 0 <= i < entries.len() && (#[trigger] entries[i]).0 == k,
    decreases entries.len(),
{
    if entries.len() == 0 {
    } else if entries.last().0 == k {
        assert(entries[entries.len() - 1].0 == k);
    } else {
        lemma_snapshot_after_stop_all(entries.drop_last(), k);
        let i = choose|i: int| 0 <= i < entries.drop_last().len() && (#[trigger] entries.drop_last()[i]).0 == k;
        assert(entries[i].0 == k);
    }
}

} // verus!
