//! The run registry: the shared table of currently active runs, keyed by
//! run identifier. It is the single source of truth for what is running;
//! a run is present exactly while its process is neither confirmed exited
//! nor explicitly stopped. Whichever actor removes an entry owns the
//! follow-up (terminal event or kill signal), which is what makes both
//! happen at most once per run.

use vstd::prelude::*;

verus! {

/// One tracked run: its identifier, a human-readable label, and the
/// process id of the child, kept so a stop request can signal the
/// process group.
pub struct Run {
    pub run_id: String,
    pub label: String,
    pub pid: u32,
}

/// The mathematical record a registry entry stands for.
pub struct RunData {
    pub label: Seq<char>,
    pub pid: u32,
}

impl Run {
    /// The record this run stands for.
    pub open spec fn data(self) -> RunData {
        RunData { label: self.label@, pid: self.pid }
    }
}

/// A row of the status snapshot: identifier and label of one active run.
pub struct RunningRunInfo {
    pub run_id: String,
    pub label: String,
}

/// Whether some entry of `s` carries the identifier `k`.
pub open spec fn seq_has_id(s: Seq<Run>, k: Seq<char>) -> bool {
    exists|i: int| 0 <= i < s.len() && (#[trigger] s[i]).run_id@ == k
}

/// The index of the entry of `s` carrying identifier `k`.
pub open spec fn seq_index_of(s: Seq<Run>, k: Seq<char>) -> int {
    choose|i: int| 0 <= i < s.len() && (#[trigger] s[i]).run_id@ == k
}

/// No two entries of `s` carry the same identifier.
pub open spec fn distinct_ids(s: Seq<Run>) -> bool {
    forall|i: int, j: int|
        0 <= i < j < s.len() ==> (#[trigger] s[i]).run_id@ != (#[trigger] s[j]).run_id@
}

/// The mapping from identifier to record that `s` represents.
pub open spec fn seq_map(s: Seq<Run>) -> Map<Seq<char>, RunData> {
    Map::new(|k: Seq<char>| seq_has_id(s, k), |k: Seq<char>| s[seq_index_of(s, k)].data())
}

/// Under distinctness, an identifier picks out at most one index.
pub proof fn lemma_id_index_unique(s: Seq<Run>, i: int, j: int)
    requires
        distinct_ids(s),
        0 <= i < s.len(),
        0 <= j < s.len(),
        s[i].run_id@ == s[j].run_id@,
    ensures
        i == j,
{
}

/// The entry at index `i` is what the represented map holds for its
/// identifier.
pub proof fn lemma_seq_map_at(s: Seq<Run>, i: int)
    requires
        distinct_ids(s),
        0 <= i < s.len(),
    ensures
        seq_map(s).contains_key(s[i].run_id@),
        seq_map(s)[s[i].run_id@] == s[i].data(),
{
    let k = s[i].run_id@;
    assert(seq_has_id(s, k));
    lemma_id_index_unique(s, i, seq_index_of(s, k));
}

/// Appending an entry with a fresh identifier inserts its record.
pub proof fn lemma_seq_map_push(s: Seq<Run>, r: Run)
    requires
        distinct_ids(s),
        !seq_has_id(s, r.run_id@),
    ensures
        distinct_ids(s.push(r)),
        seq_map(s.push(r)) =~= seq_map(s).insert(r.run_id@, r.data()),
{
    let t = s.push(r);
    assert forall|i: int, j: int| 0 <= i < j < t.len() implies (#[trigger] t[i]).run_id@
        != (#[trigger] t[j]).run_id@ by {
        if j == s.len() {
            assert(t[i] == s[i]);
            if s[i].run_id@ == r.run_id@ {
                assert(seq_has_id(s, r.run_id@));
            }
        } else {
            assert(t[i] == s[i]);
            assert(t[j] == s[j]);
        }
    }
    assert forall|k: Seq<char>| #[trigger] seq_map(t).contains_key(k) implies
        seq_map(s).insert(r.run_id@, r.data()).contains_key(k) by {
        let i = seq_index_of(t, k);
        if i < s.len() {
            assert(s[i].run_id@ == k);
            assert(seq_has_id(s, k));
        }
    }
    assert forall|k: Seq<char>| #[trigger] seq_map(s).insert(r.run_id@, r.data()).contains_key(k)
        implies seq_map(t).contains_key(k) && seq_map(t)[k]
            == seq_map(s).insert(r.run_id@, r.data())[k] by {
        if k == r.run_id@ {
            assert(t[s.len() as int].run_id@ == k);
            assert(seq_has_id(t, k));
            lemma_seq_map_at(t, s.len() as int);
        } else {
            let i = seq_index_of(s, k);
            assert(s[i].run_id@ == k);
            assert(t[i].run_id@ == k);
            assert(seq_has_id(t, k));
            lemma_seq_map_at(t, i);
            lemma_seq_map_at(s, i);
        }
    }
}

/// Removing the entry at index `i` removes exactly its record.
pub proof fn lemma_seq_map_remove(s: Seq<Run>, i: int)
    requires
        distinct_ids(s),
        0 <= i < s.len(),
    ensures
        distinct_ids(s.remove(i)),
        seq_map(s.remove(i)) =~= seq_map(s).remove(s[i].run_id@),
{
    let k0 = s[i].run_id@;
    let t = s.remove(i);
    assert forall|p: int, q: int| 0 <= p < q < t.len() implies (#[trigger] t[p]).run_id@
        != (#[trigger] t[q]).run_id@ by {
        let p0 = if p < i { p } else { p + 1 };
        let q0 = if q < i { q } else { q + 1 };
        assert(t[p] == s[p0]);
        assert(t[q] == s[q0]);
    }
    assert forall|k: Seq<char>| #[trigger] seq_map(t).contains_key(k) implies
        seq_map(s).remove(k0).contains_key(k) && seq_map(t)[k] == seq_map(s).remove(k0)[k] by {
        let j = seq_index_of(t, k);
        assert(t[j].run_id@ == k);
        let j0 = if j < i { j } else { j + 1 };
        assert(t[j] == s[j0]);
        assert(seq_has_id(s, k));
        lemma_seq_map_at(s, j0);
        lemma_seq_map_at(t, j);
        if s[j0].run_id@ == k0 {
            lemma_id_index_unique(s, j0, i);
            assert(false);
        }
    }
    assert forall|k: Seq<char>| #[trigger] seq_map(s).remove(k0).contains_key(k) implies
        seq_map(t).contains_key(k) by {
        let j = seq_index_of(s, k);
        assert(s[j].run_id@ == k);
        let j1 = if j < i { j } else { j - 1 };
        assert(t[j1] == s[j]);
        assert(seq_has_id(t, k));
    }
}

/// Once a run is removed, no later snapshot shows it: any snapshot whose
/// entries all come from the table without the removed identifier — as
/// [`Registry::list`] guarantees of its result — carries no entry under
/// that identifier. With identifiers never reused by the generator, the
/// run is gone from every subsequent listing.
pub proof fn lemma_removed_not_in_snapshot(
    m: Map<Seq<char>, RunData>,
    k: Seq<char>,
    snapshot: Seq<RunningRunInfo>,
)
    requires
        forall|i: int| 0 <= i < snapshot.len() ==> m.remove(k).contains_key(
            (#[trigger] snapshot[i]).run_id@),
    ensures
        forall|i: int| 0 <= i < snapshot.len() ==> (#[trigger] snapshot[i]).run_id@ != k,
{
}

/// The shared mapping from run identifier to live run record.
pub struct Registry {
    runs: Vec<Run>,
}

impl View for Registry {
    type V = Map<Seq<char>, RunData>;

    closed spec fn view(&self) -> Map<Seq<char>, RunData> {
        seq_map(self.runs@)
    }
}

impl Registry {
    /// Identifiers in the table are pairwise distinct: at most one run
    /// exists per run identifier.
    pub closed spec fn wf(self) -> bool {
        distinct_ids(self.runs@)
    }

    pub fn new() -> (r: Self)
        ensures
            r.wf(),
            r@ =~= Map::<Seq<char>, RunData>::empty(),
    {
        Registry { runs: Vec::new() }
    }

    /// Whether `run_id` is currently tracked.
    pub fn contains(&self, run_id: &String) -> (b: bool)
        requires
            self.wf(),
        ensures
            b == self@.contains_key(run_id@),
    {
        let n = self.runs.len();
        let mut i: usize = 0;
        while i < n
            invariant
                self.wf(),
                n == self.runs@.len(),
                0 <= i <= n,
                forall|j: int| 0 <= j < i ==> (#[trigger] self.runs@[j]).run_id@ != run_id@,
            decreases n - i,
        {
            if self.runs[i].run_id == *run_id {
                proof {
                    assert(seq_has_id(self.runs@, run_id@));
                }
                return true;
            }
            i = i + 1;
        }
        proof {
            if self@.contains_key(run_id@) {
                let j = seq_index_of(self.runs@, run_id@);
                assert(self.runs@[j].run_id@ == run_id@);
            }
        }
        false
    }

    /// Adds a run under its identifier. Fails exactly on a duplicate
    /// identifier, leaving the table unchanged — duplicates cannot arise
    /// from the id generator, but a caller must treat the failure as a
    /// programming error, not overwrite the live entry.
    pub fn insert(&mut self, run: Run) -> (ok: bool)
        requires
            old(self).wf(),
        ensures
            final(self).wf(),
            ok == !old(self)@.contains_key(run.run_id@),
            ok ==> final(self)@ == old(self)@.insert(run.run_id@, run.data()),
            !ok ==> final(self)@ == old(self)@,
    {
        let n = self.runs.len();
        let mut i: usize = 0;
        while i < n
            invariant
                self.wf(),
                *self == *old(self),
                n == self.runs@.len(),
                0 <= i <= n,
                forall|j: int| 0 <= j < i ==> (#[trigger] self.runs@[j]).run_id@ != run.run_id@,
            decreases n - i,
        {
            if self.runs[i].run_id == run.run_id {
                proof {
                    assert(seq_has_id(self.runs@, run.run_id@));
                }
                return false;
            }
            i = i + 1;
        }
        proof {
            if seq_has_id(self.runs@, run.run_id@) {
                let j = seq_index_of(self.runs@, run.run_id@);
                assert(self.runs@[j].run_id@ == run.run_id@);
            }
            lemma_seq_map_push(self.runs@, run);
        }
        self.runs.push(run);
        true
    }

    /// Removes and returns the run tracked under `run_id`. Idempotent:
    /// when the identifier is unknown — never tracked, already exited, or
    /// already stopped — the table is left exactly as it was and `None`
    /// comes back.
    pub fn remove(&mut self, run_id: &String) -> (r: Option<Run>)
        requires
            old(self).wf(),
        ensures
            final(self).wf(),
            r is Some <==> old(self)@.contains_key(run_id@),
            final(self)@ == old(self)@.remove(run_id@),
            !old(self)@.contains_key(run_id@) ==> final(self)@ == old(self)@,
            r is Some ==> r.unwrap().run_id@ == run_id@
                && old(self)@[run_id@] == r.unwrap().data(),
    {
        let n = self.runs.len();
        let mut i: usize = 0;
        while i < n
            invariant
                self.wf(),
                *self == *old(self),
                n == self.runs@.len(),
                0 <= i <= n,
                forall|j: int| 0 <= j < i ==> (#[trigger] self.runs@[j]).run_id@ != run_id@,
            decreases n - i,
        {
            if self.runs[i].run_id == *run_id {
                proof {
                    lemma_seq_map_at(self.runs@, i as int);
                    lemma_seq_map_remove(self.runs@, i as int);
                }
                let run = self.runs.remove(i);
                return Some(run);
            }
            i = i + 1;
        }
        proof {
            if seq_has_id(self.runs@, run_id@) {
                let j = seq_index_of(self.runs@, run_id@);
                assert(self.runs@[j].run_id@ == run_id@);
            }
            assert(old(self)@.remove(run_id@) =~= old(self)@);
        }
        None
    }

    /// A snapshot of all currently tracked runs: every live run appears
    /// exactly once, with the label it was registered under.
    pub fn list(&self) -> (r: Vec<RunningRunInfo>)
        requires
            self.wf(),
        ensures
            forall|i: int| 0 <= i < r@.len() ==> self@.contains_key((#[trigger] r@[i]).run_id@)
                && self@[r@[i].run_id@].label == r@[i].label@,
            forall|k: Seq<char>| #[trigger] self@.contains_key(k)
                ==> exists|i: int| 0 <= i < r@.len() && (#[trigger] r@[i]).run_id@ == k,
            forall|i: int, j: int| 0 <= i < j < r@.len()
                ==> (#[trigger] r@[i]).run_id@ != (#[trigger] r@[j]).run_id@,
    {
        let n = self.runs.len();
        let mut out: Vec<RunningRunInfo> = Vec::new();
        let mut i: usize = 0;
        while i < n
            invariant
                self.wf(),
                n == self.runs@.len(),
                0 <= i <= n,
                out@.len() == i,
                forall|j: int| 0 <= j < i ==> (#[trigger] out@[j]).run_id@
                    == self.runs@[j].run_id@ && out@[j].label@ == self.runs@[j].label@,
            decreases n - i,
        {
            out.push(RunningRunInfo {
                run_id: self.runs[i].run_id.clone(),
                label: self.runs[i].label.clone(),
            });
            i = i + 1;
        }
        proof {
            assert forall|j: int| 0 <= j < out@.len() implies
                self@.contains_key((#[trigger] out@[j]).run_id@)
                && self@[out@[j].run_id@].label == out@[j].label@ by {
                lemma_seq_map_at(self.runs@, j);
            }
            assert forall|k: Seq<char>| #[trigger] self@.contains_key(k) implies
                exists|i2: int| 0 <= i2 < out@.len() && (#[trigger] out@[i2]).run_id@ == k by {
                let j = seq_index_of(self.runs@, k);
                assert(self.runs@[j].run_id@ == k);
                assert(out@[j].run_id@ == k);
            }
        }
        out
    }

    /// Atomically empties the table, handing every run that was tracked
    /// — each exactly once — to the caller.
    pub fn drain(&mut self) -> (r: Vec<Run>)
        requires
            old(self).wf(),
        ensures
            final(self).wf(),
            final(self)@ =~= Map::<Seq<char>, RunData>::empty(),
            distinct_ids(r@),
            forall|i: int| 0 <= i < r@.len() ==> old(self)@.contains_key(
                (#[trigger] r@[i]).run_id@) && old(self)@[r@[i].run_id@] == r@[i].data(),
            forall|k: Seq<char>| #[trigger] old(self)@.contains_key(k)
                ==> exists|i: int| 0 <= i < r@.len() && (#[trigger] r@[i]).run_id@ == k,
    {
        let mut out: Vec<Run> = Vec::new();
        core::mem::swap(&mut self.runs, &mut out);
        proof {
            assert forall|i: int| 0 <= i < out@.len() implies old(self)@.contains_key(
                (#[trigger] out@[i]).run_id@) && old(self)@[out@[i].run_id@] == out@[i].data() by {
                lemma_seq_map_at(old(self).runs@, i);
            }
            assert forall|k: Seq<char>| #[trigger] old(self)@.contains_key(k) implies
                exists|i: int| 0 <= i < out@.len() && (#[trigger] out@[i]).run_id@ == k by {
                let j = seq_index_of(out@, k);
                assert(out@[j].run_id@ == k);
            }
        }
        out
    }
}

} // verus!
