use vstd::prelude::*;

verus! {

/// Transcriptional orientation of a record.
#[derive(Clone, Copy, Debug, PartialEq, Eq, Structural, Hash, PartialOrd, Ord)]
pub enum Strand {
    Forward,
    Reverse,
    Unknown,
}

impl Strand {
    pub open spec fn spec_is_unknown(self) -> bool {
        self is Unknown
    }

    pub open spec fn spec_neg(self) -> Strand {
        match self {
            Strand::Forward => Strand::Reverse,
            Strand::Reverse => Strand::Forward,
            Strand::Unknown => Strand::Unknown,
        }
    }

    /// The symbol written for a strand in reports.
    pub open spec fn spec_symbol(self) -> char {
        match self {
            Strand::Forward => '+',
            Strand::Reverse => '-',
            Strand::Unknown => '.',
        }
    }

    pub fn is_unknown(&self) -> (r: bool)
        ensures
            r == self.spec_is_unknown(),
    {
        match self {
            Strand::Unknown => true,
            _ => false,
        }
    }

    /// Two strands are the same when they are equal.
    pub fn same(&self, other: &Strand) -> (r: bool)
        ensures
            r == (*self == *other),
    {
        *self == *other
    }

    /// The opposite strand; an unknown strand stays unknown.
    pub fn neg(self) -> (r: Strand)
        ensures
            r == self.spec_neg(),
    {
        match self {
            Strand::Forward => Strand::Reverse,
            Strand::Reverse => Strand::Forward,
            Strand::Unknown => Strand::Unknown,
        }
    }

    pub fn strand_symbol(&self) -> (r: char)
        ensures
            r == self.spec_symbol(),
    {
        match self {
            Strand::Forward => '+',
            Strand::Reverse => '-',
            Strand::Unknown => '.',
        }
    }
}

} // verus!
