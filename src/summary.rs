use vstd::prelude::*;

use crate::dna::NucCounts;
use crate::dna::Nucleotide;
use crate::mismatches::{sat_add, NucTotals, ROINucCounts};
use crate::refpred::PredNucleotide;
use crate::strand::Strand;

verus! {

/// A half-open range `[start, end)` on a contig.
#[derive(Clone, Debug, PartialEq, Eq, Hash)]
pub struct Interval {
    pub contig: String,
    pub start: u64,
    pub end: u64,
}

impl Interval {
    pub open spec fn spec_len(&self) -> nat {
        if self.start <= self.end {
            (self.end - self.start) as nat
        } else {
            0
        }
    }

    pub fn new(contig: String, start: u64, end: u64) -> (r: Interval)
        ensures
            r == (Interval { contig, start, end }),
    {
        Interval { contig, start, end }
    }

    /// Number of positions in the interval; an interval whose end lies before its start is empty.
    pub fn len(&self) -> (r: u64)
        ensures
            r == self.spec_len(),
    {
        if self.start <= self.end {
            self.end - self.start
        } else {
            0
        }
    }

    pub fn duplicate(&self) -> (r: Interval)
        ensures
            r == *self,
    {
        Interval { contig: self.contig.clone(), start: self.start, end: self.end }
    }
}

/// What the loci of a region add up to.
#[derive(Clone, Copy, Debug, PartialEq, Eq, Structural, Hash)]
pub struct ROIData {
    /// All tallied bases.
    pub coverage: u64,
    /// Loci called homozygous, by base.
    pub homozygous: NucTotals,
    /// Loci called heterozygous.
    pub heterozygous: u64,
    /// Loci whose call is an indeterminate base.
    pub nucmasked: u64,
    /// Tallied bases by called base (rows) and sequenced base (columns), over
    /// loci not called heterozygous.
    pub mismatches: ROINucCounts,
}

impl ROIData {
    pub open spec fn spec_zeros() -> ROIData {
        ROIData {
            coverage: 0,
            homozygous: NucTotals::spec_zeros(),
            heterozygous: 0,
            nucmasked: 0,
            mismatches: ROINucCounts::spec_zeros(),
        }
    }

    /// One more locus, with its call and its tally.
    pub open spec fn spec_add_locus(self, pred: PredNucleotide, cnt: NucCounts) -> ROIData {
        let d = ROIData { coverage: sat_add(self.coverage, cnt.spec_coverage() as u64), ..self };
        match pred {
            PredNucleotide::Homozygous(Nucleotide::Unknown) => ROIData {
                nucmasked: sat_add(d.nucmasked, 1),
                mismatches: d.mismatches.spec_add_locus(Nucleotide::Unknown, cnt),
                ..d
            },
            PredNucleotide::Homozygous(n) => ROIData {
                homozygous: d.homozygous.spec_inc(n),
                mismatches: d.mismatches.spec_add_locus(n, cnt),
                ..d
            },
            PredNucleotide::Heterozygous(_, _) => ROIData {
                heterozygous: sat_add(d.heterozygous, 1),
                ..d
            },
        }
    }

    pub fn zeros() -> (r: ROIData)
        ensures
            r == ROIData::spec_zeros(),
    {
        ROIData {
            coverage: 0,
            homozygous: NucTotals::zeros(),
            heterozygous: 0,
            nucmasked: 0,
            mismatches: ROINucCounts::zeros(),
        }
    }

    pub fn add_locus(&self, pred: PredNucleotide, cnt: &NucCounts) -> (r: ROIData)
        ensures
            r == self.spec_add_locus(pred, *cnt),
    {
        let d = ROIData { coverage: self.coverage.saturating_add(cnt.coverage()), ..*self };
        match pred {
            PredNucleotide::Homozygous(Nucleotide::Unknown) => ROIData {
                nucmasked: d.nucmasked.saturating_add(1),
                mismatches: d.mismatches.add_locus(Nucleotide::Unknown, cnt),
                ..d
            },
            PredNucleotide::Homozygous(n) => ROIData {
                homozygous: d.homozygous.inc(n),
                mismatches: d.mismatches.add_locus(n, cnt),
                ..d
            },
            PredNucleotide::Heterozygous(_, _) => ROIData {
                heterozygous: d.heterozygous.saturating_add(1),
                ..d
            },
        }
    }
}

/// The first `n` loci added up.
pub open spec fn spec_roi_data(pred: Seq<PredNucleotide>, counts: Seq<NucCounts>, n: nat) -> ROIData
    decreases n,
{
    if n == 0 {
        ROIData::spec_zeros()
    } else {
        spec_roi_data(pred, counts, (n - 1) as nat).spec_add_locus(
            pred[n - 1],
            counts[n - 1],
        )
    }
}

/// A mismatch record of one region of interest on one strand.
#[derive(Clone, Debug, PartialEq, Eq, Hash)]
pub struct ROISummary {
    pub interval: Interval,
    pub name: String,
    pub strand: Strand,
    pub data: ROIData,
}

impl ROISummary {
    pub fn duplicate(&self) -> (r: ROISummary)
        ensures
            r == *self,
    {
        ROISummary {
            interval: self.interval.duplicate(),
            name: self.name.clone(),
            strand: self.strand,
            data: self.data,
        }
    }

    pub open spec fn spec_from_counts(
        interval: Interval,
        name: String,
        strand: Strand,
        pred: Seq<PredNucleotide>,
        counts: Seq<NucCounts>,
    ) -> ROISummary {
        ROISummary { interval, name, strand, data: spec_roi_data(pred, counts, counts.len()) }
    }

    /// The record of a region from the call and the tally of each of its loci.
    pub fn from_counts(
        interval: Interval,
        name: String,
        strand: Strand,
        pred: &Vec<PredNucleotide>,
        counts: &[NucCounts],
    ) -> (r: ROISummary)
        requires
            pred@.len() == counts@.len(),
        ensures
            r == ROISummary::spec_from_counts(interval, name, strand, pred@, counts@),
    {
        let mut data = ROIData::zeros();
        let mut i: usize = 0;
        while i < counts.len()
            invariant
                pred@.len() == counts@.len(),
                i <= counts@.len(),
                data == spec_roi_data(pred@, counts@, i as nat),
            decreases counts@.len() - i,
        {
            data = data.add_locus(pred[i], &counts[i]);
            i += 1;
        }
        ROISummary { interval, name, strand, data }
    }
}

} // verus!
