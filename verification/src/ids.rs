//! Run-identifier generation. Identifiers issued by one generator are
//! pairwise distinct for the whole life of the generator, and read as
//! `run-` followed by a decimal sequence number. The number is seeded
//! from a caller-supplied clock reading, so identifiers from separate
//! processes rarely coincide either; only distinctness within one
//! generator is guaranteed.

use vstd::prelude::*;
use crate::text::{spec_decimal, decimal_string, lemma_decimal_injective};

verus! {

/// The text of the run identifier with sequence number `n`.
pub open spec fn spec_run_id(n: nat) -> Seq<char> {
    "run-"@ + spec_decimal(n)
}

/// Distinct sequence numbers give distinct run-identifier text.
pub proof fn lemma_run_id_injective(a: nat, b: nat)
    requires
        a != b,
    ensures
        spec_run_id(a) != spec_run_id(b),
{
    lemma_decimal_injective(a, b);
    if spec_run_id(a) == spec_run_id(b) {
        let p = "run-"@.len() as int;
        assert(spec_decimal(a) =~= spec_run_id(a).subrange(p, spec_run_id(a).len() as int));
        assert(spec_decimal(b) =~= spec_run_id(b).subrange(p, spec_run_id(b).len() as int));
        assert(false);
    }
}

/// Renders the run identifier with sequence number `n`.
pub fn run_id_string(n: u64) -> (r: String)
    ensures
        r@ == spec_run_id(n as nat),
{
    let digits = decimal_string(n);
    let mut id = "run-".to_owned();
    id.append(digits.as_str());
    id
}

/// Issues run sequence numbers. Each number issued is strictly greater
/// than every number issued before it, so numbers — and with
/// [`lemma_run_id_injective`] their rendered identifiers — never repeat
/// within the life of one generator.
pub struct IdGen {
    last: u64,
    issued: Ghost<Seq<u64>>,
}

impl IdGen {
    /// The sequence numbers issued so far, oldest first.
    pub closed spec fn issued(self) -> Seq<u64> {
        self.issued@
    }

    /// Issued numbers are strictly increasing and never exceed the
    /// generator's high-water mark.
    pub closed spec fn wf(self) -> bool {
        &&& forall|i: int, j: int|
            0 <= i < j < self.issued@.len() ==> self.issued@[i] < self.issued@[j]
        &&& forall|i: int| 0 <= i < self.issued@.len() ==> self.issued@[i] <= self.last
    }

    /// The generator can still issue a fresh number.
    pub closed spec fn has_capacity(self) -> bool {
        self.last < u64::MAX
    }

    pub fn new() -> (g: Self)
        ensures
            g.wf(),
            g.has_capacity(),
            g.issued() =~= Seq::<u64>::empty(),
    {
        IdGen { last: 0, issued: Ghost(Seq::empty()) }
    }

    /// Whether a fresh number can still be issued. False only once the
    /// numbering space is exhausted.
    pub fn can_issue(&self) -> (b: bool)
        ensures
            b == self.has_capacity(),
    {
        self.last < u64::MAX
    }

    /// Issues the next sequence number: the clock reading if it is fresh,
    /// otherwise one past the last number issued. Rapid successive calls
    /// within one clock tick still get distinct numbers.
    pub fn next_id(&mut self, now_nanos: u64) -> (id: u64)
        requires
            old(self).wf(),
            old(self).has_capacity(),
        ensures
            final(self).wf(),
            final(self).issued() == old(self).issued().push(id),
            forall|i: int| 0 <= i < old(self).issued().len() ==> old(self).issued()[i] < id,
            id >= now_nanos,
            id < u64::MAX ==> final(self).has_capacity(),
    {
        let id: u64 = if now_nanos > self.last { now_nanos } else { self.last + 1 };
        self.last = id;
        proof {
            self.issued@ = self.issued@.push(id);
        }
        id
    }
}

/// Issues the next run identifier as text. The fresh sequence number is
/// strictly greater than every number issued before, so — with
/// [`lemma_run_id_injective`] — the text differs from that of every
/// identifier this generator gave out earlier.
pub fn gen_run_id(g: &mut IdGen, now_nanos: u64) -> (id: String)
    requires
        old(g).wf(),
        old(g).has_capacity(),
    ensures
        final(g).wf(),
        final(g).issued().len() == old(g).issued().len() + 1,
        final(g).issued() == old(g).issued().push(final(g).issued().last()),
        id@ == spec_run_id(final(g).issued().last() as nat),
        forall|i: int| 0 <= i < old(g).issued().len()
            ==> old(g).issued()[i] < final(g).issued().last(),
        final(g).issued().last() >= now_nanos,
        final(g).issued().last() < u64::MAX ==> final(g).has_capacity(),
{
    let n = g.next_id(now_nanos);
    run_id_string(n)
}

/// Issues the next run identifier, or `None` once the generator's
/// numbering space is exhausted. The total form of [`gen_run_id`]: it
/// can be called without knowing the generator still has capacity.
pub fn try_gen_run_id(g: &mut IdGen, now_nanos: u64) -> (r: Option<String>)
    requires
        old(g).wf(),
    ensures
        final(g).wf(),
        r is Some <==> old(g).has_capacity(),
        r is Some ==> {
            &&& final(g).issued() == old(g).issued().push(final(g).issued().last())
            &&& r.unwrap()@ == spec_run_id(final(g).issued().last() as nat)
            &&& forall|i: int| 0 <= i < old(g).issued().len()
                ==> old(g).issued()[i] < final(g).issued().last()
            &&& final(g).issued().last() >= now_nanos
        },
        r is None ==> *final(g) == *old(g),
{
    if g.can_issue() {
        Some(gen_run_id(g, now_nanos))
    } else {
        None
    }
}

/// Run identifiers issued by one generator are pairwise distinct, both as
/// numbers and as rendered text.
pub proof fn lemma_issued_ids_distinct(g: IdGen, i: int, j: int)
    requires
        g.wf(),
        0 <= i < g.issued().len(),
        0 <= j < g.issued().len(),
        i != j,
    ensures
        g.issued()[i] != g.issued()[j],
        spec_run_id(g.issued()[i] as nat) != spec_run_id(g.issued()[j] as nat),
{
    if i < j {
        assert(g.issued()[i] < g.issued()[j]);
    } else {
        assert(g.issued()[j] < g.issued()[i]);
    }
    lemma_run_id_injective(g.issued()[i] as nat, g.issued()[j] as nat);
}

} // verus!
