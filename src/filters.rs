use vstd::prelude::*;

use crate::freq::{count_bound, Frequency};
use crate::summary::ROISummary;

verus! {

/// A predicate that decides which region records are kept.
pub trait ROISummaryFilter {
    spec fn spec_is_ok(&self, rec: &ROISummary) -> bool;

    fn is_ok(&self, rec: &ROISummary) -> (r: bool)
        ensures
            r == self.spec_is_ok(rec),
    ;
}

/// Keeps a region with enough coverage, enough mismatches and a large enough
/// share of mismatches; coverage counts the bases tallied at homozygous loci.
#[derive(Clone, Copy, Debug, PartialEq, Eq, Structural, Hash)]
pub struct ByMismatches {
    pub minmismatches: u32,
    pub minfreq: Frequency,
    pub mincov: u32,
}

impl ByMismatches {
    pub fn new(minmismatches: u32, minfreq: Frequency, mincov: u32) -> (r: ByMismatches)
        ensures
            r == (ByMismatches { minmismatches, minfreq, mincov }),
    {
        ByMismatches { minmismatches, minfreq, mincov }
    }
}

impl ROISummaryFilter for ByMismatches {
    open spec fn spec_is_ok(&self, rec: &ROISummary) -> bool {
        let m = rec.data.mismatches;
        &&& m.spec_coverage() >= self.mincov
        &&& m.spec_mismatches() >= self.minmismatches
        &&& self.minfreq.spec_reached_by(m.spec_mismatches(), m.spec_coverage())
    }

    fn is_ok(&self, rec: &ROISummary) -> (r: bool) {
        let m = &rec.data.mismatches;
        let mismatches = m.mismatches();
        let coverage = m.coverage();
        assert(count_bound() == 0x1_0000_0000_0000_0000_0000_0000);
        coverage >= self.mincov as u128 && mismatches >= self.minmismatches as u128
            && self.minfreq.reached_by(mismatches, coverage)
    }
}

} // verus!
