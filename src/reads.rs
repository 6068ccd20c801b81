use vstd::prelude::*;

use crate::mismatches::sat_add;
use crate::strand::Strand;

verus! {

/// An ungapped stretch of a read aligned to the reference: `len` bases from
/// read offset `qstart` sit at reference positions from `refstart` on.
#[derive(Clone, Copy, Debug, PartialEq, Eq, Structural, Hash)]
pub struct AlignedBlock {
    pub refstart: u64,
    pub qstart: u64,
    pub len: u64,
}

/// The kinds of CIGAR operations.
#[derive(Clone, Copy, Debug, PartialEq, Eq, Structural, Hash)]
pub enum CigarKind {
    Match,
    Ins,
    Del,
    RefSkip,
    SoftClip,
    HardClip,
    Pad,
    Equal,
    Diff,
}

/// One CIGAR operation.
#[derive(Clone, Copy, Debug, PartialEq, Eq, Structural, Hash)]
pub struct CigarOp {
    pub kind: CigarKind,
    pub len: u32,
}

impl CigarKind {
    pub open spec fn spec_consumes_ref(self) -> bool {
        self is Match || self is Del || self is RefSkip || self is Equal || self is Diff
    }

    pub open spec fn spec_consumes_query(self) -> bool {
        self is Match || self is Ins || self is SoftClip || self is Equal || self is Diff
    }

    pub open spec fn spec_aligned(self) -> bool {
        self is Match || self is Equal || self is Diff
    }
}

/// Blocks, reference position and read offset after the first `n` operations of a
/// CIGAR that starts at `refstart`; positions stop at `u64::MAX`.
pub open spec fn spec_blocks(refstart: u64, cigar: Seq<CigarOp>, n: nat) -> (Seq<AlignedBlock>, u64, u64)
    decreases n,
{
    if n == 0 {
        (Seq::empty(), refstart, 0)
    } else {
        let (blocks, rpos, qpos) = spec_blocks(refstart, cigar, (n - 1) as nat);
        let op = cigar[n - 1];
        let blocks = if op.kind.spec_aligned() && op.len > 0 {
            blocks.push(AlignedBlock { refstart: rpos, qstart: qpos, len: op.len as u64 })
        } else {
            blocks
        };
        let rpos = if op.kind.spec_consumes_ref() { sat_add(rpos, op.len as u64) } else { rpos };
        let qpos = if op.kind.spec_consumes_query() { sat_add(qpos, op.len as u64) } else { qpos };
        (blocks, rpos, qpos)
    }
}

/// The aligned blocks of a read whose alignment starts at `refstart`.
pub fn blocks_from_cigar(refstart: u64, cigar: &Vec<CigarOp>) -> (r: Vec<AlignedBlock>)
    ensures
        r@ == spec_blocks(refstart, cigar@, cigar@.len()).0,
{
    let mut blocks: Vec<AlignedBlock> = Vec::new();
    let mut rpos = refstart;
    let mut qpos: u64 = 0;
    let mut n: usize = 0;
    while n < cigar.len()
        invariant
            n <= cigar@.len(),
            (blocks@, rpos, qpos) == spec_blocks(refstart, cigar@, n as nat),
        decreases cigar@.len() - n,
    {
        let op = cigar[n];
        let aligned = matches!(op.kind, CigarKind::Match | CigarKind::Equal | CigarKind::Diff);
        if aligned && op.len > 0 {
            blocks.push(AlignedBlock { refstart: rpos, qstart: qpos, len: op.len as u64 });
        }
        if matches!(op.kind, CigarKind::Match | CigarKind::Del | CigarKind::RefSkip | CigarKind::Equal | CigarKind::Diff) {
            rpos = rpos.saturating_add(op.len as u64);
        }
        if matches!(op.kind, CigarKind::Match | CigarKind::Ins | CigarKind::SoftClip | CigarKind::Equal | CigarKind::Diff) {
            qpos = qpos.saturating_add(op.len as u64);
        }
        n += 1;
    }
    blocks
}

/// The parts of an aligned read that counting looks at.
#[derive(Clone, Debug, PartialEq, Eq, Hash)]
pub struct AlignedRead {
    /// SAM flags.
    pub flags: u16,
    pub mapq: u8,
    pub blocks: Vec<AlignedBlock>,
    /// Base symbols, in ASCII.
    pub seq: Vec<u8>,
    /// Phred base qualities.
    pub qual: Vec<u8>,
}

pub open spec fn spec_is_reverse(flags: u16) -> bool {
    flags & 0x10 != 0
}

pub open spec fn spec_is_last_in_template(flags: u16) -> bool {
    flags & 0x80 != 0
}

impl AlignedRead {
    pub fn new(flags: u16, mapq: u8, blocks: Vec<AlignedBlock>, seq: Vec<u8>, qual: Vec<u8>) -> (r:
        AlignedRead)
        ensures
            r == (AlignedRead { flags, mapq, blocks, seq, qual }),
    {
        AlignedRead { flags, mapq, blocks, seq, qual }
    }

    /// The strand the read aligned to.
    pub open spec fn spec_strand(&self) -> Strand {
        if spec_is_reverse(self.flags) {
            Strand::Reverse
        } else {
            Strand::Forward
        }
    }

    pub fn strand(&self) -> (r: Strand)
        ensures
            r == self.spec_strand(),
    {
        if self.flags & 0x10 != 0 {
            Strand::Reverse
        } else {
            Strand::Forward
        }
    }

    /// The read is the second mate of a pair.
    pub fn is_last_in_template(&self) -> (r: bool)
        ensures
            r == spec_is_last_in_template(self.flags),
    {
        self.flags & 0x80 != 0
    }
}

/// How the strand of a transcript is read off a library: the first mate (or a
/// single read) aligns to it (`Same`) or against it (`Flip`); in the two paired
/// designs the second mate does the opposite of the first.
#[derive(Clone, Copy, Debug, PartialEq, Eq, Structural, Hash)]
pub enum StrandSpecificExperimentDesign {
    Same,
    Flip,
    Same1Flip2,
    Flip1Same2,
}

impl StrandSpecificExperimentDesign {
    /// The transcript strand of a read.
    pub open spec fn spec_deduce(self, read: &AlignedRead) -> Strand {
        let aligned = read.spec_strand();
        let second = spec_is_last_in_template(read.flags);
        match self {
            StrandSpecificExperimentDesign::Same => aligned,
            StrandSpecificExperimentDesign::Flip => aligned.spec_neg(),
            StrandSpecificExperimentDesign::Same1Flip2 => if second {
                aligned.spec_neg()
            } else {
                aligned
            },
            StrandSpecificExperimentDesign::Flip1Same2 => if second {
                aligned
            } else {
                aligned.spec_neg()
            },
        }
    }

    pub fn deduce(&self, read: &AlignedRead) -> (r: Strand)
        ensures
            r == self.spec_deduce(read),
            !(r is Unknown),
    {
        let aligned = read.strand();
        let second = read.is_last_in_template();
        match self {
            StrandSpecificExperimentDesign::Same => aligned,
            StrandSpecificExperimentDesign::Flip => aligned.neg(),
            StrandSpecificExperimentDesign::Same1Flip2 => if second {
                aligned.neg()
            } else {
                aligned
            },
            StrandSpecificExperimentDesign::Flip1Same2 => if second {
                aligned
            } else {
                aligned.neg()
            },
        }
    }
}

} // verus!
