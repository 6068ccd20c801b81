use vstd::prelude::*;

use crate::dna::NucCounts;
use crate::reads::{AlignedRead, StrandSpecificExperimentDesign};
use crate::strand::Strand;

verus! {

/// `len` zero tallies.
pub open spec fn spec_zeroed(len: nat) -> Seq<NucCounts> {
    Seq::new(len, |_i: int| NucCounts::spec_zeros())
}

/// A read-only view of a counting buffer: the populated slices, the others absent.
#[derive(Clone, Copy)]
pub struct CountsBufferContent<'a> {
    pub forward: Option<&'a [NucCounts]>,
    pub reverse: Option<&'a [NucCounts]>,
    pub unstranded: Option<&'a [NucCounts]>,
}

pub open spec fn spec_slice_len(s: Option<&[NucCounts]>) -> nat {
    match s {
        Some(s) => s@.len(),
        None => 0,
    }
}

fn slice_len(s: Option<&[NucCounts]>) -> (r: usize)
    ensures
        r == spec_slice_len(s),
{
    match s {
        Some(s) => s.len(),
        None => 0,
    }
}

/// A populated slice with its strand, or nothing.
pub open spec fn spec_view_of(strand: Strand, s: Option<&[NucCounts]>) -> Seq<(Strand, Seq<NucCounts>)> {
    match s {
        Some(s) => seq![(strand, s@)],
        None => Seq::empty(),
    }
}

/// Each slot with its strand.
pub open spec fn spec_labelled(labels: Seq<Strand>, slots: Seq<Seq<NucCounts>>) -> Seq<(Strand, Seq<NucCounts>)> {
    Seq::new(slots.len(), |i: int| (labels[i], slots[i]))
}

impl<'a> CountsBufferContent<'a> {
    /// The populated slices with their strands: forward, reverse, then unstranded.
    pub open spec fn spec_views(&self) -> Seq<(Strand, Seq<NucCounts>)> {
        spec_view_of(Strand::Forward, self.forward) + spec_view_of(Strand::Reverse, self.reverse)
            + spec_view_of(Strand::Unknown, self.unstranded)
    }

    pub open spec fn spec_total_counts(&self) -> nat {
        spec_slice_len(self.forward) + spec_slice_len(self.reverse) + spec_slice_len(
            self.unstranded,
        )
    }

    /// Number of tallies over all populated slices.
    pub fn total_counts(&self) -> (r: u64)
        requires
            self.spec_total_counts() <= u64::MAX,
        ensures
            r == self.spec_total_counts(),
    {
        slice_len(self.forward) as u64 + slice_len(self.reverse) as u64 + slice_len(
            self.unstranded,
        ) as u64
    }

    /// Number of tally slots over all populated slices; the same as `total_counts`.
    pub fn capacity(&self) -> (r: u64)
        requires
            self.spec_total_counts() <= u64::MAX,
        ensures
            r == self.spec_total_counts(),
    {
        self.total_counts()
    }
}

/// Slots of equal length, `spec_len` of them.
pub open spec fn spec_buffer_wf<B: CountsBuffer + ?Sized>(b: &B) -> bool {
    &&& b.spec_slots().len() > 0
    &&& forall|s: int|
        0 <= s < b.spec_slots().len() ==> #[trigger] b.spec_slots()[s].len() == b.spec_len()
}

/// Fixed-shape storage of per-locus tallies for one interval at a time. Its
/// model is a sequence of slots of equal length; each read is routed to one slot.
pub trait CountsBuffer {
    spec fn spec_slots(&self) -> Seq<Seq<NucCounts>>;

    /// The slot that the bases of `read` go to.
    spec fn spec_route(&self, read: &AlignedRead) -> int;

    spec fn spec_len(&self) -> nat;

    /// The strand of the reads that each slot holds; `Unknown` for an unstranded slot.
    spec fn spec_labels(&self) -> Seq<Strand>;

    proof fn lemma_route(&self, read: &AlignedRead)
        ensures
            0 <= self.spec_route(read) < self.spec_slots().len(),
    ;

    proof fn lemma_slots(&self)
        ensures
            self.spec_slots().len() > 0,
    ;

    /// Zeroes every slot, at length `len`; nothing of what the slots held before remains.
    fn reset(&mut self, len: u32)
        ensures
            final(self).spec_slots().len() == old(self).spec_slots().len(),
            final(self).spec_len() == len,
            final(self).spec_labels() == old(self).spec_labels(),
            forall|s: int|
                0 <= s < final(self).spec_slots().len() ==> #[trigger] final(self).spec_slots()[s]
                    == spec_zeroed(len as nat),
            forall|r: &AlignedRead| #[trigger]
                final(self).spec_route(r) == old(self).spec_route(r),
    ;

    /// The slot that the bases of `read` go to; writes through it change that slot only.
    fn buffer_for(&mut self, read: &AlignedRead) -> (r: &mut [NucCounts])
        ensures
            r@ == old(self).spec_slots()[old(self).spec_route(read)],
            final(self).spec_slots() == old(self).spec_slots().update(
                old(self).spec_route(read),
                final(r)@,
            ),
            (forall|s: int|
                0 <= s < old(self).spec_slots().len() ==> #[trigger] old(self).spec_slots()[s].len()
                    == old(self).spec_len()) && final(r)@.len() == r@.len() ==> final(self).spec_len()
                == old(self).spec_len(),
            final(self).spec_labels() == old(self).spec_labels(),
            forall|q: &AlignedRead| #[trigger]
                final(self).spec_route(q) == old(self).spec_route(q),
    ;

    fn content(&self) -> (r: CountsBufferContent<'_>)
        ensures
            r.spec_views() == spec_labelled(self.spec_labels(), self.spec_slots()),
    ;

    fn len(&self) -> (r: u32)
        requires
            self.spec_len() <= u32::MAX,
        ensures
            r == self.spec_len(),
    ;
}

/// One slot, for every read.
#[derive(Clone, Debug)]
pub struct UnstrandedCountsBuffer {
    pub buffer: Vec<NucCounts>,
}

/// Fills `v` with zero tallies, at length `len`.
fn zero_fill(v: &mut Vec<NucCounts>, len: u32)
    ensures
        final(v)@ == spec_zeroed(len as nat),
{
    let newlen = len as usize;
    if v.len() != newlen {
        v.resize(newlen, NucCounts::zeros());
    }
    let mut i: usize = 0;
    while i < v.len()
        invariant
            v@.len() == newlen,
            i <= newlen,
            forall|j: int| 0 <= j < i ==> v@[j] == NucCounts::spec_zeros(),
        decreases newlen - i,
    {
        v.set(i, NucCounts::zeros());
        i += 1;
    }
    assert(v@ =~= spec_zeroed(len as nat));
}

impl UnstrandedCountsBuffer {
    /// An empty buffer with room for `reserve` loci.
    pub fn new(reserve: u32) -> (r: UnstrandedCountsBuffer)
        ensures
            r.buffer@.len() == 0,
    {
        UnstrandedCountsBuffer { buffer: Vec::with_capacity(reserve as usize) }
    }
}

impl CountsBuffer for UnstrandedCountsBuffer {
    open spec fn spec_slots(&self) -> Seq<Seq<NucCounts>> {
        seq![self.buffer@]
    }

    open spec fn spec_route(&self, read: &AlignedRead) -> int {
        0
    }

    open spec fn spec_len(&self) -> nat {
        self.buffer@.len()
    }

    open spec fn spec_labels(&self) -> Seq<Strand> {
        seq![Strand::Unknown]
    }

    proof fn lemma_route(&self, read: &AlignedRead) {
    }

    proof fn lemma_slots(&self) {
    }

    fn content(&self) -> (r: CountsBufferContent<'_>) {
        let r = CountsBufferContent { forward: None, reverse: None, unstranded: Some(self.buffer.as_slice()) };
        assert(r.spec_views() =~= spec_labelled(self.spec_labels(), self.spec_slots()));
        r
    }

    fn reset(&mut self, len: u32)
        ensures
            final(self).buffer@ == spec_zeroed(len as nat),
    {
        zero_fill(&mut self.buffer, len);
        assert(self.spec_slots() =~= seq![spec_zeroed(len as nat)]);
    }

    fn buffer_for(&mut self, read: &AlignedRead) -> (r: &mut [NucCounts]) {
        self.buffer.as_mut_slice()
    }

    fn len(&self) -> (r: u32) {
        self.buffer.len() as u32
    }
}

/// Two slots, forward and reverse, sharing no storage; a read goes to the slot of
/// the strand that the library design gives it.
#[derive(Clone, Debug)]
pub struct StrandedCountsBuffer {
    pub design: StrandSpecificExperimentDesign,
    pub forward: Vec<NucCounts>,
    pub reverse: Vec<NucCounts>,
}

impl StrandedCountsBuffer {
    pub fn new(design: StrandSpecificExperimentDesign, reserve: u32) -> (r: StrandedCountsBuffer)
        ensures
            r.design == design,
            r.forward@.len() == 0,
            r.reverse@.len() == 0,
    {
        StrandedCountsBuffer {
            design,
            forward: Vec::with_capacity(reserve as usize),
            reverse: Vec::with_capacity(reserve as usize),
        }
    }
}

impl CountsBuffer for StrandedCountsBuffer {
    open spec fn spec_slots(&self) -> Seq<Seq<NucCounts>> {
        seq![self.forward@, self.reverse@]
    }

    open spec fn spec_route(&self, read: &AlignedRead) -> int {
        if self.design.spec_deduce(read) is Forward {
            0
        } else {
            1
        }
    }

    open spec fn spec_len(&self) -> nat {
        self.forward@.len()
    }

    open spec fn spec_labels(&self) -> Seq<Strand> {
        seq![Strand::Forward, Strand::Reverse]
    }

    proof fn lemma_route(&self, read: &AlignedRead) {
    }

    proof fn lemma_slots(&self) {
    }

    fn content(&self) -> (r: CountsBufferContent<'_>) {
        let r = CountsBufferContent {
            forward: Some(self.forward.as_slice()),
            reverse: Some(self.reverse.as_slice()),
            unstranded: None,
        };
        assert(r.spec_views() =~= spec_labelled(self.spec_labels(), self.spec_slots()));
        r
    }

    fn reset(&mut self, len: u32)
        ensures
            final(self).forward@ == spec_zeroed(len as nat),
            final(self).reverse@ == spec_zeroed(len as nat),
            final(self).design == old(self).design,
    {
        zero_fill(&mut self.forward, len);
        zero_fill(&mut self.reverse, len);
        assert(self.spec_slots() =~= seq![spec_zeroed(len as nat), spec_zeroed(len as nat)]);
    }

    fn buffer_for(&mut self, read: &AlignedRead) -> (r: &mut [NucCounts]) {
        let ghost old_self = *self;
        match self.design.deduce(read) {
            Strand::Forward => {
                let r = self.forward.as_mut_slice();
                proof {
                    assert(old_self.spec_slots().update(0, final(r)@) =~= seq![final(r)@, old_self.reverse@]);
                }
                r
            },
            _ => {
                let r = self.reverse.as_mut_slice();
                proof {
                    assert(old_self.spec_slots().update(1, final(r)@) =~= seq![old_self.forward@, final(r)@]);
                }
                r
            },
        }
    }

    fn len(&self) -> (r: u32) {
        self.forward.len() as u32
    }
}

/// Reads that the design gives the same strand go to the same slot, and reads
/// of opposite strands to different slots; the two slots are separate vectors.
pub proof fn lemma_stranded_routing(b: StrandedCountsBuffer, r1: &AlignedRead, r2: &AlignedRead)
    ensures
        b.spec_route(r1) == b.spec_route(r2) <==> b.design.spec_deduce(r1) == b.design.spec_deduce(r2),
        b.spec_slots()[b.spec_route(r1)] == if b.design.spec_deduce(r1) is Forward {
            b.forward@
        } else {
            b.reverse@
        },
{
}

} // verus!
