use vstd::prelude::*;

use crate::dna::{NucCounts, Nucleotide};
use crate::strand::Strand;

verus! {

/// Sum of two counters, held at the largest value a counter can take.
pub open spec fn sat_add(a: u64, b: u64) -> u64 {
    if a + b <= u64::MAX {
        (a + b) as u64
    } else {
        u64::MAX
    }
}

pub proof fn lemma_sat_add_associative(a: u64, b: u64, c: u64)
    ensures
        sat_add(sat_add(a, b), c) == sat_add(a, sat_add(b, c)),
{
}

/// Per-base totals over many loci.
#[derive(Clone, Copy, Debug, PartialEq, Eq, Structural, Hash)]
pub struct NucTotals {
    pub a: u64,
    pub c: u64,
    pub g: u64,
    pub t: u64,
}

impl NucTotals {
    pub open spec fn spec_zeros() -> NucTotals {
        NucTotals { a: 0, c: 0, g: 0, t: 0 }
    }

    pub open spec fn spec_add(self, o: NucTotals) -> NucTotals {
        NucTotals {
            a: sat_add(self.a, o.a),
            c: sat_add(self.c, o.c),
            g: sat_add(self.g, o.g),
            t: sat_add(self.t, o.t),
        }
    }

    pub open spec fn spec_get(self, nuc: Nucleotide) -> u64 {
        match nuc {
            Nucleotide::A => self.a,
            Nucleotide::C => self.c,
            Nucleotide::G => self.g,
            Nucleotide::T => self.t,
            Nucleotide::Unknown => 0,
        }
    }

    pub open spec fn spec_total(self) -> nat {
        (self.a + self.c + self.g + self.t) as nat
    }

    pub open spec fn spec_add_counts(self, o: NucCounts) -> NucTotals {
        self.spec_add(NucTotals { a: o.a as u64, c: o.c as u64, g: o.g as u64, t: o.t as u64 })
    }

    /// One more locus for `nuc`.
    pub open spec fn spec_inc(self, nuc: Nucleotide) -> NucTotals {
        match nuc {
            Nucleotide::A => NucTotals { a: sat_add(self.a, 1), ..self },
            Nucleotide::C => NucTotals { c: sat_add(self.c, 1), ..self },
            Nucleotide::G => NucTotals { g: sat_add(self.g, 1), ..self },
            Nucleotide::T => NucTotals { t: sat_add(self.t, 1), ..self },
            Nucleotide::Unknown => self,
        }
    }

    pub proof fn lemma_add_associative(x: NucTotals, y: NucTotals, z: NucTotals)
        ensures
            x.spec_add(y).spec_add(z) == x.spec_add(y.spec_add(z)),
    {
        lemma_sat_add_associative(x.a, y.a, z.a);
        lemma_sat_add_associative(x.c, y.c, z.c);
        lemma_sat_add_associative(x.g, y.g, z.g);
        lemma_sat_add_associative(x.t, y.t, z.t);
    }

    pub proof fn lemma_add_commutative(x: NucTotals, y: NucTotals)
        ensures
            x.spec_add(y) == y.spec_add(x),
    {
    }

    pub fn total(&self) -> (r: u128)
        ensures
            r == self.spec_total(),
    {
        self.a as u128 + self.c as u128 + self.g as u128 + self.t as u128
    }

    pub fn get(&self, nuc: Nucleotide) -> (r: u64)
        ensures
            r == self.spec_get(nuc),
    {
        match nuc {
            Nucleotide::A => self.a,
            Nucleotide::C => self.c,
            Nucleotide::G => self.g,
            Nucleotide::T => self.t,
            Nucleotide::Unknown => 0,
        }
    }

    pub fn new(a: u64, c: u64, g: u64, t: u64) -> (r: NucTotals)
        ensures
            r == (NucTotals { a, c, g, t }),
    {
        NucTotals { a, c, g, t }
    }

    pub fn zeros() -> (r: NucTotals)
        ensures
            r == NucTotals::spec_zeros(),
    {
        NucTotals { a: 0, c: 0, g: 0, t: 0 }
    }

    pub fn add(&self, o: &NucTotals) -> (r: NucTotals)
        ensures
            r == self.spec_add(*o),
    {
        NucTotals {
            a: self.a.saturating_add(o.a),
            c: self.c.saturating_add(o.c),
            g: self.g.saturating_add(o.g),
            t: self.t.saturating_add(o.t),
        }
    }

    pub fn add_counts(&self, o: &NucCounts) -> (r: NucTotals)
        ensures
            r == self.spec_add_counts(*o),
    {
        self.add(&NucTotals { a: o.a as u64, c: o.c as u64, g: o.g as u64, t: o.t as u64 })
    }

    pub fn inc(&self, nuc: Nucleotide) -> (r: NucTotals)
        ensures
            r == self.spec_inc(nuc),
    {
        match nuc {
            Nucleotide::A => NucTotals { a: self.a.saturating_add(1), ..*self },
            Nucleotide::C => NucTotals { c: self.c.saturating_add(1), ..*self },
            Nucleotide::G => NucTotals { g: self.g.saturating_add(1), ..*self },
            Nucleotide::T => NucTotals { t: self.t.saturating_add(1), ..*self },
            Nucleotide::Unknown => *self,
        }
    }
}

/// Observed bases by reference base: row `a` holds what was sequenced where the
/// reference is `A`, and so on; row `n` holds what was sequenced where the
/// reference is indeterminate, all of it mismatches.
#[derive(Clone, Copy, Debug, PartialEq, Eq, Structural, Hash)]
pub struct ROINucCounts {
    pub a: NucTotals,
    pub c: NucTotals,
    pub g: NucTotals,
    pub t: NucTotals,
    pub n: NucTotals,
}

impl ROINucCounts {
    pub open spec fn spec_zeros() -> ROINucCounts {
        ROINucCounts {
            a: NucTotals::spec_zeros(),
            c: NucTotals::spec_zeros(),
            g: NucTotals::spec_zeros(),
            t: NucTotals::spec_zeros(),
            n: NucTotals::spec_zeros(),
        }
    }

    pub open spec fn spec_add(self, o: ROINucCounts) -> ROINucCounts {
        ROINucCounts {
            a: self.a.spec_add(o.a),
            c: self.c.spec_add(o.c),
            g: self.g.spec_add(o.g),
            t: self.t.spec_add(o.t),
            n: self.n.spec_add(o.n),
        }
    }

    /// The row of a reference base; row `n` for an indeterminate one.
    pub open spec fn spec_row(self, refnuc: Nucleotide) -> NucTotals {
        match refnuc {
            Nucleotide::A => self.a,
            Nucleotide::C => self.c,
            Nucleotide::G => self.g,
            Nucleotide::T => self.t,
            Nucleotide::Unknown => self.n,
        }
    }

    pub fn row(&self, refnuc: Nucleotide) -> (r: NucTotals)
        ensures
            r == self.spec_row(refnuc),
    {
        match refnuc {
            Nucleotide::A => self.a,
            Nucleotide::C => self.c,
            Nucleotide::G => self.g,
            Nucleotide::T => self.t,
            Nucleotide::Unknown => self.n,
        }
    }

    /// The tally of one locus added to the row of its reference base.
    pub open spec fn spec_add_locus(self, refnuc: Nucleotide, seq: NucCounts) -> ROINucCounts {
        match refnuc {
            Nucleotide::A => ROINucCounts { a: self.a.spec_add_counts(seq), ..self },
            Nucleotide::C => ROINucCounts { c: self.c.spec_add_counts(seq), ..self },
            Nucleotide::G => ROINucCounts { g: self.g.spec_add_counts(seq), ..self },
            Nucleotide::T => ROINucCounts { t: self.t.spec_add_counts(seq), ..self },
            Nucleotide::Unknown => ROINucCounts { n: self.n.spec_add_counts(seq), ..self },
        }
    }

    /// Sequenced bases that differ from the reference base of their row, and all
    /// of row `n`.
    pub open spec fn spec_mismatches(self) -> nat {
        (self.a.c + self.a.g + self.a.t + self.c.a + self.c.g + self.c.t + self.g.a + self.g.c
            + self.g.t + self.t.a + self.t.c + self.t.g + self.n.spec_total()) as nat
    }

    /// All sequenced bases in the matrix.
    pub open spec fn spec_coverage(self) -> nat {
        (self.spec_mismatches() + self.a.a + self.c.c + self.g.g + self.t.t) as nat
    }

    pub proof fn lemma_add_associative(x: ROINucCounts, y: ROINucCounts, z: ROINucCounts)
        ensures
            x.spec_add(y).spec_add(z) == x.spec_add(y.spec_add(z)),
    {
        NucTotals::lemma_add_associative(x.a, y.a, z.a);
        NucTotals::lemma_add_associative(x.c, y.c, z.c);
        NucTotals::lemma_add_associative(x.g, y.g, z.g);
        NucTotals::lemma_add_associative(x.t, y.t, z.t);
        NucTotals::lemma_add_associative(x.n, y.n, z.n);
    }

    pub proof fn lemma_add_commutative(x: ROINucCounts, y: ROINucCounts)
        ensures
            x.spec_add(y) == y.spec_add(x),
    {
        NucTotals::lemma_add_commutative(x.a, y.a);
        NucTotals::lemma_add_commutative(x.c, y.c);
        NucTotals::lemma_add_commutative(x.g, y.g);
        NucTotals::lemma_add_commutative(x.t, y.t);
        NucTotals::lemma_add_commutative(x.n, y.n);
    }

    pub fn zeros() -> (r: ROINucCounts)
        ensures
            r == ROINucCounts::spec_zeros(),
    {
        ROINucCounts {
            a: NucTotals::zeros(),
            c: NucTotals::zeros(),
            g: NucTotals::zeros(),
            t: NucTotals::zeros(),
            n: NucTotals::zeros(),
        }
    }

    pub fn add(&self, o: &ROINucCounts) -> (r: ROINucCounts)
        ensures
            r == self.spec_add(*o),
    {
        ROINucCounts {
            a: self.a.add(&o.a),
            c: self.c.add(&o.c),
            g: self.g.add(&o.g),
            t: self.t.add(&o.t),
            n: self.n.add(&o.n),
        }
    }

    pub fn add_locus(&self, refnuc: Nucleotide, seq: &NucCounts) -> (r: ROINucCounts)
        ensures
            r == self.spec_add_locus(refnuc, *seq),
    {
        match refnuc {
            Nucleotide::A => ROINucCounts { a: self.a.add_counts(seq), ..*self },
            Nucleotide::C => ROINucCounts { c: self.c.add_counts(seq), ..*self },
            Nucleotide::G => ROINucCounts { g: self.g.add_counts(seq), ..*self },
            Nucleotide::T => ROINucCounts { t: self.t.add_counts(seq), ..*self },
            Nucleotide::Unknown => ROINucCounts { n: self.n.add_counts(seq), ..*self },
        }
    }

    /// Number of mismatches; every counter is below 2^64, so the sum fits in 128 bits.
    pub fn mismatches(&self) -> (r: u128)
        ensures
            r == self.spec_mismatches(),
    {
        self.a.c as u128 + self.a.g as u128 + self.a.t as u128 + self.c.a as u128
            + self.c.g as u128 + self.c.t as u128 + self.g.a as u128 + self.g.c as u128
            + self.g.t as u128 + self.t.a as u128 + self.t.c as u128 + self.t.g as u128
            + self.n.total()
    }

    pub fn coverage(&self) -> (r: u128)
        ensures
            r == self.spec_coverage(),
    {
        self.mismatches() + self.a.a as u128 + self.c.c as u128 + self.g.g as u128
            + self.t.t as u128
    }
}

} // verus!
