use vstd::arithmetic::mul::lemma_mul_upper_bound;
use vstd::prelude::*;

use crate::dna::{NucCounts, Nucleotide};
use crate::freq::{count_bound, Frequency};
use crate::mismatches::ROINucCounts;
use crate::refpred::PredNucleotide;
use crate::stranding::ROIStrandPredictor;
use crate::strand::Strand;
use crate::summary::ROISummary;

verus! {

/// Calls the strand by A-to-I editing: A->G mismatches mark the forward strand,
/// T->C mismatches (A->G read on the other strand) mark the reverse one.
#[derive(Clone, Copy, Debug, PartialEq, Eq, Structural, Hash)]
pub struct StrandByAtoIEditing {
    pub minmismatches: u32,
    pub minfreq: Frequency,
}

impl StrandByAtoIEditing {
    /// `mismatches` out of `matches + mismatches` count as editing.
    pub open spec fn spec_edited(self, matches: nat, mismatches: nat) -> bool {
        &&& matches + mismatches > 0
        &&& mismatches >= self.minmismatches
        &&& self.minfreq.spec_reached_by(mismatches, matches + mismatches)
    }

    pub open spec fn spec_sitepred(self, sequenced: NucCounts, refnuc: Nucleotide) -> Strand {
        match refnuc {
            Nucleotide::A => if self.spec_edited(sequenced.a as nat, sequenced.g as nat) {
                Strand::Forward
            } else {
                Strand::Unknown
            },
            Nucleotide::T => if self.spec_edited(sequenced.t as nat, sequenced.c as nat) {
                Strand::Reverse
            } else {
                Strand::Unknown
            },
            _ => Strand::Unknown,
        }
    }

    /// The strand of a site: a heterozygous site takes the strand of the allele
    /// that gives one, and of both alleles only where they agree.
    pub open spec fn spec_site_strand(self, pred: PredNucleotide, sequenced: NucCounts) -> Strand {
        match pred {
            PredNucleotide::Homozygous(n) => self.spec_sitepred(sequenced, n),
            PredNucleotide::Heterozygous(n1, n2) => {
                let s1 = self.spec_sitepred(sequenced, n1);
                let s2 = self.spec_sitepred(sequenced, n2);
                if !(s1 is Unknown) && s2 is Unknown {
                    s1
                } else if s1 is Unknown && !(s2 is Unknown) {
                    s2
                } else if !(s1 is Unknown) && s1 == s2 {
                    s1
                } else {
                    Strand::Unknown
                }
            },
        }
    }

    /// The strand of a region: the one channel that shows editing, or of two the
    /// one with the strictly larger editing ratio.
    pub open spec fn spec_roipred(self, m: ROINucCounts) -> Strand {
        let a2g = self.spec_edited(m.a.a as nat, m.a.g as nat);
        let t2c = self.spec_edited(m.t.t as nat, m.t.c as nat);
        let a2g_coverage = m.a.a + m.a.g;
        let t2c_coverage = m.t.t + m.t.c;
        if !a2g && !t2c {
            Strand::Unknown
        } else if !a2g {
            Strand::Reverse
        } else if !t2c {
            Strand::Forward
        } else if a2g_coverage == 0 && t2c_coverage == 0 {
            Strand::Unknown
        } else if m.a.g > 0 && m.a.g * t2c_coverage > m.t.c * a2g_coverage {
            Strand::Forward
        } else if m.t.c > 0 && m.t.c * a2g_coverage > m.a.g * t2c_coverage {
            Strand::Reverse
        } else {
            Strand::Unknown
        }
    }

    pub fn new(minmismatches: u32, minfreq: Frequency) -> (r: StrandByAtoIEditing)
        ensures
            r == (StrandByAtoIEditing { minmismatches, minfreq }),
    {
        StrandByAtoIEditing { minmismatches, minfreq }
    }

    fn edited(&self, matches: u64, mismatches: u64) -> (r: bool)
        ensures
            r == self.spec_edited(matches as nat, mismatches as nat),
    {
        let coverage = matches as u128 + mismatches as u128;
        assert(count_bound() == 0x1_0000_0000_0000_0000_0000_0000);
        coverage > 0 && mismatches >= self.minmismatches as u64 && self.minfreq.reached_by(
            mismatches as u128,
            coverage,
        )
    }

    /// The strand of a homozygous site with reference base `refnuc`.
    pub fn sitepred(&self, sequenced: &NucCounts, refnuc: Nucleotide) -> (r: Strand)
        ensures
            r == self.spec_sitepred(*sequenced, refnuc),
    {
        match refnuc {
            Nucleotide::A => if self.edited(sequenced.a as u64, sequenced.g as u64) {
                Strand::Forward
            } else {
                Strand::Unknown
            },
            Nucleotide::T => if self.edited(sequenced.t as u64, sequenced.c as u64) {
                Strand::Reverse
            } else {
                Strand::Unknown
            },
            _ => Strand::Unknown,
        }
    }

    pub fn site_strand(&self, pred: PredNucleotide, sequenced: &NucCounts) -> (r: Strand)
        ensures
            r == self.spec_site_strand(pred, *sequenced),
    {
        match pred {
            PredNucleotide::Homozygous(n) => self.sitepred(sequenced, n),
            PredNucleotide::Heterozygous(n1, n2) => {
                let s1 = self.sitepred(sequenced, n1);
                let s2 = self.sitepred(sequenced, n2);
                if !s1.is_unknown() && s2.is_unknown() {
                    s1
                } else if s1.is_unknown() && !s2.is_unknown() {
                    s2
                } else if !s1.is_unknown() && s1.same(&s2) {
                    s1
                } else {
                    Strand::Unknown
                }
            },
        }
    }

    pub fn roipred(&self, m: &ROINucCounts) -> (r: Strand)
        ensures
            r == self.spec_roipred(*m),
    {
        let a2g = self.edited(m.a.a, m.a.g);
        let t2c = self.edited(m.t.t, m.t.c);
        if !a2g && !t2c {
            return Strand::Unknown;
        } else if !a2g {
            return Strand::Reverse;
        } else if !t2c {
            return Strand::Forward;
        }
        let (aa, ag, tt, tc) = (m.a.a as u128, m.a.g as u128, m.t.t as u128, m.t.c as u128);
        if aa + ag == 0 && tt + tc == 0 {
            return Strand::Unknown;
        }
        // ag / (aa + ag) against tc / (tt + tc), with the common term ag * tc taken out
        proof {
            assert(ag * (tt + tc) == ag * tt + ag * tc) by (nonlinear_arith);
            assert(tc * (aa + ag) == tc * aa + tc * ag) by (nonlinear_arith);
            assert(ag * tc == tc * ag) by (nonlinear_arith);
            lemma_mul_upper_bound(ag as int, 0xffff_ffff_ffff_ffff, tt as int, 0xffff_ffff_ffff_ffff);
            lemma_mul_upper_bound(tc as int, 0xffff_ffff_ffff_ffff, aa as int, 0xffff_ffff_ffff_ffff);
            assert(0xffff_ffff_ffff_ffffu128 * 0xffff_ffff_ffff_ffffu128 < u128::MAX);
        }
        let forward = ag * tt;
        let reverse = tc * aa;
        if ag > 0 && forward > reverse {
            Strand::Forward
        } else if tc > 0 && reverse > forward {
            Strand::Reverse
        } else {
            Strand::Unknown
        }
    }
}

impl ROIStrandPredictor for StrandByAtoIEditing {
    open spec fn spec_predict(&self, rec: &ROISummary) -> Strand {
        self.spec_roipred(rec.data.mismatches)
    }

    fn predict(&self, rec: &ROISummary) -> (r: Strand) {
        self.roipred(&rec.data.mismatches)
    }
}

/// Where both the A->G and the T->C channel show editing at equal ratios, the
/// strand of a region stays unknown.
pub proof fn lemma_equal_ratios_unknown(p: StrandByAtoIEditing, m: ROINucCounts)
    requires
        p.spec_edited(m.a.a as nat, m.a.g as nat),
        p.spec_edited(m.t.t as nat, m.t.c as nat),
        m.a.g * (m.t.t + m.t.c) == m.t.c * (m.a.a + m.a.g),
    ensures
        p.spec_roipred(m) == Strand::Unknown,
{
}

/// Where only one channel shows editing, it decides the strand: A->G the forward
/// strand, T->C the reverse one.
pub proof fn lemma_single_channel(p: StrandByAtoIEditing, m: ROINucCounts)
    ensures
        p.spec_edited(m.a.a as nat, m.a.g as nat) && !p.spec_edited(m.t.t as nat, m.t.c as nat)
            ==> p.spec_roipred(m) == Strand::Forward,
        !p.spec_edited(m.a.a as nat, m.a.g as nat) && p.spec_edited(m.t.t as nat, m.t.c as nat)
            ==> p.spec_roipred(m) == Strand::Reverse,
{
}

} // verus!
