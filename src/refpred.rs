use vstd::prelude::*;

use crate::dna::{NucCounts, Nucleotide};
use crate::freq::{count_bound, Frequency};

verus! {

/// The reference base at locus `i`; indeterminate past the end of `reference`.
pub open spec fn spec_ref_at(reference: Seq<Nucleotide>, i: int) -> Nucleotide {
    if 0 <= i < reference.len() {
        reference[i]
    } else {
        Nucleotide::Unknown
    }
}

/// The genotype called at one locus.
#[derive(Clone, Copy, Debug, PartialEq, Eq, Structural, Hash)]
pub enum PredNucleotide {
    Homozygous(Nucleotide),
    Heterozygous(Nucleotide, Nucleotide),
}

/// The base with the largest count other than `ex`; of equal counts the first in
/// the order A, C, G, T wins.
pub open spec fn spec_best_excluding(cnt: NucCounts, ex: Nucleotide) -> Nucleotide {
    let a = if ex is A { 0int } else { cnt.a + 1 };
    let c = if ex is C { 0int } else { cnt.c + 1 };
    let g = if ex is G { 0int } else { cnt.g + 1 };
    let t = if ex is T { 0int } else { cnt.t + 1 };
    if a >= c && a >= g && a >= t {
        Nucleotide::A
    } else if c >= g && c >= t {
        Nucleotide::C
    } else if g >= t {
        Nucleotide::G
    } else {
        Nucleotide::T
    }
}

/// The most frequent base.
pub open spec fn spec_most_frequent(cnt: NucCounts) -> Nucleotide {
    spec_best_excluding(cnt, Nucleotide::Unknown)
}

/// The second most frequent base.
pub open spec fn spec_second_frequent(cnt: NucCounts) -> Nucleotide {
    spec_best_excluding(cnt, spec_most_frequent(cnt))
}

fn best_excluding(cnt: &NucCounts, ex: Nucleotide) -> (r: Nucleotide)
    ensures
        r == spec_best_excluding(*cnt, ex),
{
    let a: u64 = if matches!(ex, Nucleotide::A) { 0 } else { cnt.a as u64 + 1 };
    let c: u64 = if matches!(ex, Nucleotide::C) { 0 } else { cnt.c as u64 + 1 };
    let g: u64 = if matches!(ex, Nucleotide::G) { 0 } else { cnt.g as u64 + 1 };
    let t: u64 = if matches!(ex, Nucleotide::T) { 0 } else { cnt.t as u64 + 1 };
    if a >= c && a >= g && a >= t {
        Nucleotide::A
    } else if c >= g && c >= t {
        Nucleotide::C
    } else if g >= t {
        Nucleotide::G
    } else {
        Nucleotide::T
    }
}

/// Majority vote: a locus with enough coverage takes its most frequent base when
/// that base reaches `minfreq`, and the two most frequent bases when only together
/// they reach it; every other locus keeps the reference base.
#[derive(Clone, Copy, Debug, PartialEq, Eq, Structural, Hash)]
pub struct ByMostFrequent {
    pub mincoverage: u32,
    pub minfreq: Frequency,
}

impl ByMostFrequent {
    pub open spec fn spec_predict(self, refnuc: Nucleotide, cnt: NucCounts) -> PredNucleotide {
        let cov = cnt.spec_coverage();
        let first = spec_most_frequent(cnt);
        let second = spec_second_frequent(cnt);
        if cov == 0 || cov < self.mincoverage {
            PredNucleotide::Homozygous(refnuc)
        } else if self.minfreq.spec_reached_by(cnt.spec_get(first) as nat, cov) {
            PredNucleotide::Homozygous(first)
        } else if cnt.spec_get(second) > 0 && self.minfreq.spec_reached_by(
            (cnt.spec_get(first) + cnt.spec_get(second)) as nat,
            cov,
        ) {
            PredNucleotide::Heterozygous(first, second)
        } else {
            PredNucleotide::Homozygous(refnuc)
        }
    }

    pub fn new(mincoverage: u32, minfreq: Frequency) -> (r: ByMostFrequent)
        ensures
            r == (ByMostFrequent { mincoverage, minfreq }),
    {
        ByMostFrequent { mincoverage, minfreq }
    }

    /// The genotype of one locus, from its reference base and its tally.
    pub fn predict(&self, refnuc: Nucleotide, cnt: &NucCounts) -> (r: PredNucleotide)
        ensures
            r == self.spec_predict(refnuc, *cnt),
    {
        let cov = cnt.coverage();
        let first = best_excluding(cnt, Nucleotide::Unknown);
        let second = best_excluding(cnt, first);
        if cov == 0 || cov < self.mincoverage as u64 {
            return PredNucleotide::Homozygous(refnuc);
        }
        let nfirst = cnt.get(first);
        let nsecond = cnt.get(second);
        assert(count_bound() == 0x1_0000_0000_0000_0000_0000_0000);
        if self.minfreq.reached_by(nfirst as u128, cov as u128) {
            PredNucleotide::Homozygous(first)
        } else if nsecond > 0 && self.minfreq.reached_by(nfirst as u128 + nsecond as u128, cov as u128) {
            PredNucleotide::Heterozygous(first, second)
        } else {
            PredNucleotide::Homozygous(refnuc)
        }
    }

    /// The genotype of each locus of an interval; a locus past the end of
    /// `reference` has an indeterminate reference base.
    pub fn predict_seq(&self, reference: &Vec<Nucleotide>, counts: &[NucCounts]) -> (r: Vec<
        PredNucleotide,
    >)
        ensures
            r@.len() == counts@.len(),
            forall|i: int|
                0 <= i < r@.len() ==> r@[i] == self.spec_predict(spec_ref_at(reference@, i), counts@[i]),
    {
        let mut r: Vec<PredNucleotide> = Vec::with_capacity(counts.len());
        let mut i: usize = 0;
        while i < counts.len()
            invariant
                i <= counts@.len(),
                r@.len() == i,
                forall|j: int|
                    0 <= j < i ==> r@[j] == self.spec_predict(spec_ref_at(reference@, j), counts@[j]),
            decreases counts@.len() - i,
        {
            let refnuc = if i < reference.len() {
                reference[i]
            } else {
                Nucleotide::Unknown
            };
            r.push(self.predict(refnuc, &counts[i]));
            i += 1;
        }
        r
    }
}

} // verus!
