use vstd::prelude::*;

verus! {

/// A base symbol; `Unknown` stands for any indeterminate symbol (`N` and the like).
#[derive(Clone, Copy, Debug, PartialEq, Eq, Structural, Hash)]
pub enum Nucleotide {
    A,
    C,
    G,
    T,
    Unknown,
}

/// The nucleotide that an ASCII base symbol stands for, case-insensitively.
pub open spec fn spec_nucleotide_of(symbol: u8) -> Nucleotide {
    if symbol == 65 || symbol == 97 {
        Nucleotide::A
    } else if symbol == 67 || symbol == 99 {
        Nucleotide::C
    } else if symbol == 71 || symbol == 103 {
        Nucleotide::G
    } else if symbol == 84 || symbol == 116 {
        Nucleotide::T
    } else {
        Nucleotide::Unknown
    }
}

impl Nucleotide {
    pub fn from_ascii(symbol: u8) -> (r: Nucleotide)
        ensures
            r == spec_nucleotide_of(symbol),
    {
        if symbol == 65 || symbol == 97 {
            Nucleotide::A
        } else if symbol == 67 || symbol == 99 {
            Nucleotide::C
        } else if symbol == 71 || symbol == 103 {
            Nucleotide::G
        } else if symbol == 84 || symbol == 116 {
            Nucleotide::T
        } else {
            Nucleotide::Unknown
        }
    }
}

/// The nucleotides of a reference sequence given in ASCII.
pub fn reference_from_ascii(seq: &[u8]) -> (r: Vec<Nucleotide>)
    ensures
        r@.len() == seq@.len(),
        forall|i: int| 0 <= i < r@.len() ==> r@[i] == spec_nucleotide_of(#[trigger] seq@[i]),
{
    let mut r: Vec<Nucleotide> = Vec::with_capacity(seq.len());
    let mut i: usize = 0;
    while i < seq.len()
        invariant
            i <= seq@.len(),
            r@.len() == i,
            forall|j: int| 0 <= j < i ==> r@[j] == spec_nucleotide_of(#[trigger] seq@[j]),
        decreases seq@.len() - i,
    {
        r.push(Nucleotide::from_ascii(seq[i]));
        i += 1;
    }
    r
}

/// One added to a tally, held at the largest value a counter can take.
pub open spec fn spec_inc(c: u32) -> u32 {
    if c < u32::MAX {
        (c + 1) as u32
    } else {
        c
    }
}

/// Occurrences of each base at one locus.
#[derive(Clone, Copy, Debug, PartialEq, Eq, Structural, Hash)]
pub struct NucCounts {
    pub a: u32,
    pub c: u32,
    pub g: u32,
    pub t: u32,
}

impl NucCounts {
    pub open spec fn spec_zeros() -> NucCounts {
        NucCounts { a: 0, c: 0, g: 0, t: 0 }
    }

    pub open spec fn spec_get(self, nuc: Nucleotide) -> u32 {
        match nuc {
            Nucleotide::A => self.a,
            Nucleotide::C => self.c,
            Nucleotide::G => self.g,
            Nucleotide::T => self.t,
            Nucleotide::Unknown => 0,
        }
    }

    pub open spec fn spec_coverage(self) -> nat {
        (self.a + self.c + self.g + self.t) as nat
    }

    /// The tally after one more observation of `nuc`; an indeterminate base is not tallied.
    pub open spec fn spec_inc(self, nuc: Nucleotide) -> NucCounts {
        match nuc {
            Nucleotide::A => NucCounts { a: spec_inc(self.a), ..self },
            Nucleotide::C => NucCounts { c: spec_inc(self.c), ..self },
            Nucleotide::G => NucCounts { g: spec_inc(self.g), ..self },
            Nucleotide::T => NucCounts { t: spec_inc(self.t), ..self },
            Nucleotide::Unknown => self,
        }
    }

    pub fn new(a: u32, c: u32, g: u32, t: u32) -> (r: NucCounts)
        ensures
            r == (NucCounts { a, c, g, t }),
    {
        NucCounts { a, c, g, t }
    }

    pub fn zeros() -> (r: NucCounts)
        ensures
            r == NucCounts::spec_zeros(),
    {
        NucCounts { a: 0, c: 0, g: 0, t: 0 }
    }

    pub fn get(&self, nuc: Nucleotide) -> (r: u32)
        ensures
            r == self.spec_get(nuc),
    {
        match nuc {
            Nucleotide::A => self.a,
            Nucleotide::C => self.c,
            Nucleotide::G => self.g,
            Nucleotide::T => self.t,
            Nucleotide::Unknown => 0,
        }
    }

    /// Total number of tallied bases.
    pub fn coverage(&self) -> (r: u64)
        ensures
            r == self.spec_coverage(),
    {
        self.a as u64 + self.c as u64 + self.g as u64 + self.t as u64
    }

    pub fn increment(&mut self, nuc: Nucleotide)
        ensures
            *final(self) == old(self).spec_inc(nuc),
    {
        match nuc {
            Nucleotide::A => self.a = self.a.saturating_add(1),
            Nucleotide::C => self.c = self.c.saturating_add(1),
            Nucleotide::G => self.g = self.g.saturating_add(1),
            Nucleotide::T => self.t = self.t.saturating_add(1),
            Nucleotide::Unknown => {},
        }
    }
}

} // verus!
