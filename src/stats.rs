use vstd::prelude::*;

use crate::dna::Nucleotide;
use crate::mismatches::ROINucCounts;
use crate::summary::ROISummary;

verus! {

/// A statistic that observes region records one by one; partial statistics of
/// disjoint record sets merge into the statistic of their union.
pub trait IntervalBasedStat: Sized {
    /// The statistic of no record.
    spec fn spec_zero() -> Self;

    spec fn spec_process(self, rec: ROISummary) -> Self;

    spec fn spec_combine(self, other: Self) -> Self;

    proof fn lemma_combine_commutative(a: Self, b: Self)
        ensures
            a.spec_combine(b) == b.spec_combine(a),
    ;

    proof fn lemma_combine_associative(a: Self, b: Self, c: Self)
        ensures
            a.spec_combine(b).spec_combine(c) == a.spec_combine(b.spec_combine(c)),
    ;

    proof fn lemma_zero_identity(a: Self)
        ensures
            Self::spec_zero().spec_combine(a) == a,
    ;

    /// Observing a record after a merge is merging with a partial that observed it.
    proof fn lemma_process_combine(a: Self, b: Self, rec: ROISummary)
        ensures
            a.spec_combine(b).spec_process(rec) == a.spec_combine(b.spec_process(rec)),
    ;

    fn zero() -> (r: Self)
        ensures
            r == Self::spec_zero(),
    ;

    fn process(&mut self, rec: &ROISummary)
        ensures
            *final(self) == old(self).spec_process(*rec),
    ;

    fn combine(&self, other: &Self) -> (r: Self)
        ensures
            r == self.spec_combine(*other),
    ;
}

/// The statistic after observing `recs` in order.
pub open spec fn spec_process_all<S: IntervalBasedStat>(s: S, recs: Seq<ROISummary>) -> S
    decreases recs.len(),
{
    if recs.len() == 0 {
        s
    } else {
        spec_process_all(s, recs.drop_last()).spec_process(recs.last())
    }
}

/// Observing records after a merge is merging with a partial that observed them.
pub proof fn lemma_process_all_combine<S: IntervalBasedStat>(a: S, b: S, recs: Seq<ROISummary>)
    ensures
        spec_process_all(a.spec_combine(b), recs) == a.spec_combine(spec_process_all(b, recs)),
    decreases recs.len(),
{
    if recs.len() > 0 {
        lemma_process_all_combine(a, b, recs.drop_last());
        S::lemma_process_combine(a, spec_process_all(b, recs.drop_last()), recs.last());
    }
}

/// Splitting the records between two workers and merging their statistics gives
/// the statistic of a single pass over all records.
pub proof fn lemma_split_pass<S: IntervalBasedStat>(xs: Seq<ROISummary>, ys: Seq<ROISummary>)
    ensures
        spec_process_all(S::spec_zero(), xs + ys) == spec_process_all(S::spec_zero(), xs).spec_combine(
            spec_process_all(S::spec_zero(), ys),
        ),
    decreases ys.len(),
{
    let x = spec_process_all(S::spec_zero(), xs);
    if ys.len() == 0 {
        assert(xs + ys =~= xs);
        S::lemma_zero_identity(x);
        S::lemma_combine_commutative(x, S::spec_zero());
    } else {
        assert((xs + ys).drop_last() =~= xs + ys.drop_last());
        assert((xs + ys).last() == ys.last());
        lemma_split_pass::<S>(xs, ys.drop_last());
        S::lemma_process_combine(
            x,
            spec_process_all(S::spec_zero(), ys.drop_last()),
            ys.last(),
        );
    }
}

/// Merges partial statistics from left to right, starting from the statistic of no record.
pub open spec fn spec_combine_all<S: IntervalBasedStat>(parts: Seq<S>) -> S
    decreases parts.len(),
{
    if parts.len() == 0 {
        S::spec_zero()
    } else {
        spec_combine_all(parts.drop_last()).spec_combine(parts.last())
    }
}

/// Merging two groups of partials separately and then the two results gives what
/// merging all partials in one go gives.
pub proof fn lemma_combine_all_grouping<S: IntervalBasedStat>(p: Seq<S>, q: Seq<S>)
    ensures
        spec_combine_all(p + q) == spec_combine_all(p).spec_combine(spec_combine_all(q)),
    decreases q.len(),
{
    let a = spec_combine_all(p);
    if q.len() == 0 {
        assert(p + q =~= p);
        S::lemma_combine_commutative(a, S::spec_zero());
        S::lemma_zero_identity(a);
    } else {
        assert((p + q).drop_last() =~= p + q.drop_last());
        assert((p + q).last() == q.last());
        lemma_combine_all_grouping(p, q.drop_last());
        S::lemma_combine_associative(a, spec_combine_all(q.drop_last()), q.last());
    }
}

/// Exchanging two neighbouring partials does not change the merge; by repeated
/// exchanges, neither does any other order of the partials.
pub proof fn lemma_combine_all_swap<S: IntervalBasedStat>(p: Seq<S>, i: int)
    requires
        0 <= i < p.len() - 1,
    ensures
        spec_combine_all(p) == spec_combine_all(p.update(i, p[i + 1]).update(i + 1, p[i])),
{
    let q = p.update(i, p[i + 1]).update(i + 1, p[i]);
    let head = p.subrange(0, i);
    let tail = p.subrange(i + 2, p.len() as int);
    let (x, y) = (p[i], p[i + 1]);
    assert(p =~= (head + seq![x, y]) + tail);
    assert(q =~= (head + seq![y, x]) + tail);
    lemma_combine_all_grouping(head + seq![x, y], tail);
    lemma_combine_all_grouping(head + seq![y, x], tail);
    let a = spec_combine_all(head);
    assert((head + seq![x, y]).drop_last() =~= head + seq![x]);
    assert((head + seq![x]).drop_last() =~= head);
    assert((head + seq![y, x]).drop_last() =~= head + seq![y]);
    assert((head + seq![y]).drop_last() =~= head);
    assert((head + seq![x, y]).last() == y);
    assert((head + seq![x]).last() == x);
    assert((head + seq![y, x]).last() == x);
    assert((head + seq![y]).last() == y);
    assert(spec_combine_all(head + seq![x]) == a.spec_combine(x));
    assert(spec_combine_all(head + seq![y]) == a.spec_combine(y));
    assert(spec_combine_all(head + seq![x, y]) == a.spec_combine(x).spec_combine(y));
    assert(spec_combine_all(head + seq![y, x]) == a.spec_combine(y).spec_combine(x));
    S::lemma_combine_associative(a, x, y);
    S::lemma_combine_associative(a, y, x);
    S::lemma_combine_commutative(x, y);
}

/// Merges the partial statistics of all workers.
pub fn combine_all<S: IntervalBasedStat>(parts: &Vec<S>) -> (r: S)
    ensures
        r == spec_combine_all(parts@),
{
    let mut r = S::zero();
    let mut i: usize = 0;
    while i < parts.len()
        invariant
            i <= parts@.len(),
            r == spec_combine_all(parts@.subrange(0, i as int)),
        decreases parts@.len() - i,
    {
        proof {
            let next = parts@.subrange(0, i + 1);
            assert(next.drop_last() =~= parts@.subrange(0, i as int));
        }
        r = r.combine(&parts[i]);
        i += 1;
    }
    proof {
        assert(parts@.subrange(0, i as int) =~= parts@);
    }
    r
}

/// The genome-wide editing index: mismatch totals of every observed region.
#[derive(Clone, Copy, Debug, PartialEq, Eq, Structural, Hash)]
pub struct EditingIndex {
    pub mismatches: ROINucCounts,
}

impl EditingIndex {
    /// The editing index of the `reference -> observed` channel is
    /// `100 * part / total`: `part` counts `observed` bases where the reference is
    /// `reference`, `total` all bases there.
    pub fn ratio(&self, reference: Nucleotide, observed: Nucleotide) -> (r: (u128, u128))
        ensures
            r.0 == 100 * self.mismatches.spec_row(reference).spec_get(observed),
            r.1 == self.mismatches.spec_row(reference).spec_total(),
    {
        let row = self.mismatches.row(reference);
        (100 * row.get(observed) as u128, row.total())
    }
}

impl IntervalBasedStat for EditingIndex {
    open spec fn spec_zero() -> Self {
        EditingIndex { mismatches: ROINucCounts::spec_zeros() }
    }

    open spec fn spec_process(self, rec: ROISummary) -> Self {
        EditingIndex { mismatches: self.mismatches.spec_add(rec.data.mismatches) }
    }

    open spec fn spec_combine(self, other: Self) -> Self {
        EditingIndex { mismatches: self.mismatches.spec_add(other.mismatches) }
    }

    proof fn lemma_combine_commutative(a: Self, b: Self) {
        ROINucCounts::lemma_add_commutative(a.mismatches, b.mismatches);
    }

    proof fn lemma_combine_associative(a: Self, b: Self, c: Self) {
        ROINucCounts::lemma_add_associative(a.mismatches, b.mismatches, c.mismatches);
    }

    proof fn lemma_zero_identity(a: Self) {
    }

    proof fn lemma_process_combine(a: Self, b: Self, rec: ROISummary) {
        ROINucCounts::lemma_add_associative(a.mismatches, b.mismatches, rec.data.mismatches);
    }

    fn zero() -> (r: Self) {
        EditingIndex { mismatches: ROINucCounts::zeros() }
    }

    fn process(&mut self, rec: &ROISummary) {
        self.mismatches = self.mismatches.add(&rec.data.mismatches);
    }

    fn combine(&self, other: &Self) -> (r: Self) {
        EditingIndex { mismatches: self.mismatches.add(&other.mismatches) }
    }
}

} // verus!
