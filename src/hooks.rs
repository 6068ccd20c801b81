use vstd::prelude::*;

use crate::filters::ROISummaryFilter;
use crate::stats::{spec_process_all, IntervalBasedStat};
use crate::summary::ROISummary;

verus! {

/// `rec` passes every filter.
pub open spec fn spec_accepted<F: ROISummaryFilter>(filters: Seq<F>, rec: ROISummary) -> bool {
    forall|i: int| 0 <= i < filters.len() ==> #[trigger] filters[i].spec_is_ok(&rec)
}

/// The records that pass every filter, in their order.
pub open spec fn spec_kept<F: ROISummaryFilter>(
    filters: Seq<F>,
    recs: Seq<ROISummary>,
) -> Seq<ROISummary>
    decreases recs.len(),
{
    if recs.len() == 0 {
        Seq::empty()
    } else {
        let kept = spec_kept(filters, recs.drop_last());
        if spec_accepted(filters, recs.last()) {
            kept.push(recs.last())
        } else {
            kept
        }
    }
}

/// Statistics and filters applied to each finished batch of records: every
/// statistic observes every record before any filter runs.
#[derive(Clone, Debug)]
pub struct REATHooksEngine<S, F> {
    pub stats: Vec<S>,
    pub filters: Vec<F>,
}

impl<S: IntervalBasedStat, F: ROISummaryFilter> REATHooksEngine<S, F> {
    pub fn new() -> (r: REATHooksEngine<S, F>)
        ensures
            r.stats@ == Seq::<S>::empty(),
            r.filters@ == Seq::<F>::empty(),
    {
        REATHooksEngine { stats: Vec::new(), filters: Vec::new() }
    }

    pub fn add_stat(&mut self, stat: S)
        ensures
            final(self).stats@ == old(self).stats@.push(stat),
            final(self).filters@ == old(self).filters@,
    {
        self.stats.push(stat);
    }

    pub fn add_filter(&mut self, filter: F)
        ensures
            final(self).stats@ == old(self).stats@,
            final(self).filters@ == old(self).filters@.push(filter),
    {
        self.filters.push(filter);
    }

    fn accepted(&self, rec: &ROISummary) -> (r: bool)
        ensures
            r == spec_accepted(self.filters@, *rec),
    {
        let mut i: usize = 0;
        while i < self.filters.len()
            invariant
                i <= self.filters@.len(),
                forall|j: int| 0 <= j < i ==> #[trigger] self.filters@[j].spec_is_ok(rec),
            decreases self.filters@.len() - i,
        {
            if !self.filters[i].is_ok(rec) {
                return false;
            }
            i += 1;
        }
        true
    }

    /// Every statistic observes all of `records`; what comes back are the records
    /// that pass every filter.
    pub fn on_finish(&mut self, records: Vec<ROISummary>) -> (r: Vec<ROISummary>)
        ensures
            final(self).filters@ == old(self).filters@,
            final(self).stats@.len() == old(self).stats@.len(),
            forall|i: int|
                0 <= i < old(self).stats@.len() ==> final(self).stats@[i] == spec_process_all(
                    old(self).stats@[i],
                    records@,
                ),
            r@ == spec_kept(old(self).filters@, records@),
    {
        let ghost stats0 = self.stats@;
        let ghost filters0 = self.filters@;
        let mut s: usize = 0;
        while s < self.stats.len()
            invariant
                s <= self.stats@.len(),
                self.stats@.len() == stats0.len(),
                self.filters@ == filters0,
                forall|i: int|
                    s <= i < stats0.len() ==> self.stats@[i] == stats0[i],
                forall|i: int|
                    0 <= i < s ==> self.stats@[i] == spec_process_all(stats0[i], records@),
            decreases stats0.len() - s,
        {
            let mut k: usize = 0;
            while k < records.len()
                invariant
                    s < self.stats@.len(),
                    self.stats@.len() == stats0.len(),
                    self.filters@ == filters0,
                    k <= records@.len(),
                    forall|i: int|
                        s < i < stats0.len() ==> self.stats@[i] == stats0[i],
                    forall|i: int|
                        0 <= i < s ==> self.stats@[i] == spec_process_all(stats0[i], records@),
                    self.stats@[s as int] == spec_process_all(
                        stats0[s as int],
                        records@.subrange(0, k as int),
                    ),
                decreases records@.len() - k,
            {
                proof {
                    let next = records@.subrange(0, k + 1);
                    assert(next.drop_last() =~= records@.subrange(0, k as int));
                }
                self.stats[s].process(&records[k]);
                k += 1;
            }
            proof {
                assert(records@.subrange(0, k as int) =~= records@);
            }
            s += 1;
        }
        let mut kept: Vec<ROISummary> = Vec::new();
        let mut k: usize = 0;
        while k < records.len()
            invariant
                k <= records@.len(),
                self.filters@ == filters0,
                kept@ == spec_kept(self.filters@, records@.subrange(0, k as int)),
            decreases records@.len() - k,
        {
            proof {
                let next = records@.subrange(0, k + 1);
                assert(next.drop_last() =~= records@.subrange(0, k as int));
            }
            if self.accepted(&records[k]) {
                kept.push(records[k].duplicate());
            }
            k += 1;
        }
        proof {
            assert(records@.subrange(0, k as int) =~= records@);
        }
        kept
    }

    /// The statistics, once all records have been observed.
    pub fn stats(self) -> (r: Vec<S>)
        ensures
            r@ == self.stats@,
    {
        self.stats
    }
}

} // verus!
