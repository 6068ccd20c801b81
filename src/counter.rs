use vstd::prelude::*;

use crate::buffers::{spec_buffer_wf, spec_zeroed, CountsBuffer};
use crate::mismatches::sat_add;
use crate::dna::{spec_nucleotide_of, NucCounts, Nucleotide};
use crate::reads::{AlignedBlock, AlignedRead};
use crate::summary::Interval;

verus! {

/// Which reads, and which of their bases, are counted.
#[derive(Clone, Copy, Debug, PartialEq, Eq, Structural, Hash)]
pub struct ReadsFilter {
    /// Least mapping quality of a counted read.
    pub mapq: u8,
    /// Flags that a counted read must have.
    pub required: u16,
    /// Flags that a counted read must not have.
    pub exclude: u16,
    /// Least phred quality of a counted base.
    pub phred: u8,
}

impl ReadsFilter {
    pub open spec fn spec_is_read_ok(self, read: &AlignedRead) -> bool {
        &&& read.mapq >= self.mapq
        &&& read.flags & self.required == self.required
        &&& read.flags & self.exclude == 0
    }

    /// Read offset `q` holds a base of enough quality.
    pub open spec fn spec_is_base_ok(self, read: &AlignedRead, q: int) -> bool {
        &&& 0 <= q < read.seq@.len()
        &&& q < read.qual@.len()
        &&& read.qual@[q] >= self.phred
    }

    pub fn new(mapq: u8, required: u16, exclude: u16, phred: u8) -> (r: ReadsFilter)
        ensures
            r == (ReadsFilter { mapq, required, exclude, phred }),
    {
        ReadsFilter { mapq, required, exclude, phred }
    }

    pub fn is_read_ok(&self, read: &AlignedRead) -> (r: bool)
        ensures
            r == self.spec_is_read_ok(read),
    {
        read.mapq >= self.mapq && read.flags & self.required == self.required && read.flags
            & self.exclude == 0
    }
}

/// The tally slot of offset `k` of a block, with its base: `None` where the
/// position is outside `[start, start + len)` or the base is not counted.
pub open spec fn spec_hit(
    filter: ReadsFilter,
    read: &AlignedRead,
    blk: AlignedBlock,
    k: int,
    start: int,
    len: int,
) -> Option<(int, Nucleotide)> {
    let p = blk.refstart + k;
    let q = blk.qstart + k;
    if start <= p < start + len && filter.spec_is_base_ok(read, q) {
        let nuc = spec_nucleotide_of(read.seq@[q]);
        if nuc is Unknown {
            None
        } else {
            Some((p - start, nuc))
        }
    } else {
        None
    }
}

/// Tallies after the first `k` offsets of a block, and whether any base was tallied.
pub open spec fn spec_count_block(
    filter: ReadsFilter,
    counts: Seq<NucCounts>,
    read: &AlignedRead,
    blk: AlignedBlock,
    start: int,
    k: nat,
) -> (Seq<NucCounts>, bool)
    decreases k,
{
    if k == 0 {
        (counts, false)
    } else {
        let (prev, hit) = spec_count_block(filter, counts, read, blk, start, (k - 1) as nat);
        match spec_hit(filter, read, blk, k - 1, start, counts.len() as int) {
            Some((i, nuc)) => (prev.update(i, prev[i].spec_inc(nuc)), true),
            None => (prev, hit),
        }
    }
}

/// Tallies after the first `n` blocks of a read, and whether any base was tallied.
pub open spec fn spec_count_read(
    filter: ReadsFilter,
    counts: Seq<NucCounts>,
    read: &AlignedRead,
    start: int,
    n: nat,
) -> (Seq<NucCounts>, bool)
    decreases n,
{
    if n == 0 {
        (counts, false)
    } else {
        let (prev, hit) = spec_count_read(filter, counts, read, start, (n - 1) as nat);
        let blk = read.blocks@[n - 1];
        let (next, bhit) = spec_count_block(filter, prev, read, blk, start, blk.len as nat);
        (next, hit || bhit)
    }
}

pub proof fn lemma_count_block_len(
    filter: ReadsFilter,
    counts: Seq<NucCounts>,
    read: &AlignedRead,
    blk: AlignedBlock,
    start: int,
    k: nat,
)
    ensures
        spec_count_block(filter, counts, read, blk, start, k).0.len() == counts.len(),
    decreases k,
{
    if k > 0 {
        lemma_count_block_len(filter, counts, read, blk, start, (k - 1) as nat);
    }
}

pub proof fn lemma_count_read_len(
    filter: ReadsFilter,
    counts: Seq<NucCounts>,
    read: &AlignedRead,
    start: int,
    n: nat,
)
    ensures
        spec_count_read(filter, counts, read, start, n).0.len() == counts.len(),
    decreases n,
{
    if n > 0 {
        lemma_count_read_len(filter, counts, read, start, (n - 1) as nat);
        let prev = spec_count_read(filter, counts, read, start, (n - 1) as nat).0;
        let blk = read.blocks@[n - 1];
        lemma_count_block_len(filter, prev, read, blk, start, blk.len as nat);
    }
}

/// Adds the counted bases of one block to `counts`, a slot that begins at `start`.
fn count_block(
    filter: &ReadsFilter,
    counts: &mut [NucCounts],
    read: &AlignedRead,
    blk: &AlignedBlock,
    start: u64,
) -> (hit: bool)
    ensures
        (final(counts)@, hit) == spec_count_block(
            *filter,
            old(counts)@,
            read,
            *blk,
            start as int,
            blk.len as nat,
        ),
{
    let ghost counts0 = counts@;
    let len = counts.len();
    let seqlen = read.seq.len();
    let mut hit = false;
    let mut k: u64 = 0;
    while k < blk.len
        invariant
            k <= blk.len,
            len == counts0.len(),
            seqlen == read.seq@.len(),
            (counts@, hit) == spec_count_block(*filter, counts0, read, *blk, start as int, k as nat),
        decreases blk.len - k,
    {
        proof {
            lemma_count_block_len(*filter, counts0, read, *blk, start as int, k as nat);
        }
        let p = blk.refstart as u128 + k as u128;
        let q = blk.qstart as u128 + k as u128;
        if start as u128 <= p && p < start as u128 + len as u128 && q < seqlen as u128 {
            let i = (p - start as u128) as usize;
            let q = q as usize;
            if q < read.qual.len() && read.qual[q] >= filter.phred {
                let nuc = Nucleotide::from_ascii(read.seq[q]);
                if !matches!(nuc, Nucleotide::Unknown) {
                    let mut c = counts[i];
                    c.increment(nuc);
                    counts[i] = c;
                    hit = true;
                }
            }
        }
        k += 1;
    }
    hit
}

/// Adds the counted bases of one read to `counts`, a slot that begins at `start`.
fn count_read(filter: &ReadsFilter, counts: &mut [NucCounts], read: &AlignedRead, start: u64) -> (hit:
    bool)
    ensures
        (final(counts)@, hit) == spec_count_read(
            *filter,
            old(counts)@,
            read,
            start as int,
            read.blocks@.len(),
        ),
{
    let ghost counts0 = counts@;
    let mut hit = false;
    let mut b: usize = 0;
    while b < read.blocks.len()
        invariant
            b <= read.blocks@.len(),
            (counts@, hit) == spec_count_read(*filter, counts0, read, start as int, b as nat),
        decreases read.blocks@.len() - b,
    {
        let bhit = count_block(filter, counts, read, &read.blocks[b], start);
        hit = hit || bhit;
        b += 1;
    }
    hit
}

/// Slots and the number of contributing reads after the first `n` reads, from
/// zeroed slots; `b` routes each read to its slot.
pub open spec fn spec_count_reads<B: CountsBuffer>(
    filter: ReadsFilter,
    b: B,
    reads: Seq<AlignedRead>,
    start: int,
    len: nat,
    n: nat,
) -> (Seq<Seq<NucCounts>>, nat)
    decreases n,
{
    if n == 0 {
        (Seq::new(b.spec_slots().len(), |_s: int| spec_zeroed(len)), 0)
    } else {
        let (prev, hits) = spec_count_reads(filter, b, reads, start, len, (n - 1) as nat);
        let read = reads[n - 1];
        if filter.spec_is_read_ok(&read) {
            let s = b.spec_route(&read);
            let (next, hit) = spec_count_read(filter, prev[s], &read, start, read.blocks@.len());
            (prev.update(s, next), if hit {
                hits + 1
            } else {
                hits
            })
        } else {
            (prev, hits)
        }
    }
}

pub proof fn lemma_count_reads_shape<B: CountsBuffer>(
    filter: ReadsFilter,
    b: B,
    reads: Seq<AlignedRead>,
    start: int,
    len: nat,
    n: nat,
)
    ensures
        spec_count_reads(filter, b, reads, start, len, n).0.len() == b.spec_slots().len(),
        forall|s: int|
            0 <= s < b.spec_slots().len() ==> #[trigger] spec_count_reads(
                filter,
                b,
                reads,
                start,
                len,
                n,
            ).0[s].len() == len,
        spec_count_reads(filter, b, reads, start, len, n).1 <= n,
    decreases n,
{
    if n > 0 {
        lemma_count_reads_shape(filter, b, reads, start, len, (n - 1) as nat);
        let prev = spec_count_reads(filter, b, reads, start, len, (n - 1) as nat).0;
        let read = reads[n - 1];
        b.lemma_route(&read);
        let s = b.spec_route(&read);
        lemma_count_read_len(filter, prev[s], &read, start, read.blocks@.len());
    }
}

/// Turns the reads of an interval into tallies, in a buffer that is reused from
/// one interval to the next.
#[derive(Clone, Debug)]
pub struct NucCounter<B> {
    pub filter: ReadsFilter,
    pub buffer: B,
    /// Reads that contributed a tally, since the counter was made.
    pub mapped: u64,
}

impl<B: CountsBuffer> NucCounter<B> {
    pub fn new(filter: ReadsFilter, buffer: B) -> (r: NucCounter<B>)
        ensures
            r.filter == filter,
            r.buffer == buffer,
            r.mapped == 0,
    {
        NucCounter { filter, buffer, mapped: 0 }
    }

    /// Resets the buffer to the length of `interval` and tallies the accepted bases
    /// of the accepted reads, each in the slot its strand routes it to.
    pub fn count(&mut self, interval: &Interval, reads: &Vec<AlignedRead>)
        requires
            interval.spec_len() <= u32::MAX,
        ensures
            final(self).filter == old(self).filter,
            final(self).buffer.spec_labels() == old(self).buffer.spec_labels(),
            final(self).buffer.spec_len() == interval.spec_len(),
            spec_buffer_wf(&final(self).buffer),
            ({
                let (slots, hits) = spec_count_reads(
                    old(self).filter,
                    old(self).buffer,
                    reads@,
                    interval.start as int,
                    interval.spec_len(),
                    reads@.len(),
                );
                &&& final(self).buffer.spec_slots() == slots
                &&& final(self).mapped == sat_add(old(self).mapped, hits as u64)
            }),
            forall|r: &AlignedRead| #[trigger]
                final(self).buffer.spec_route(r) == old(self).buffer.spec_route(r),
    {
        let ghost b0 = self.buffer;
        let len = interval.len() as u32;
        self.buffer.reset(len);
        proof {
            b0.lemma_slots();
            assert forall|s: int| 0 <= s < self.buffer.spec_slots().len() implies #[trigger] self.buffer.spec_slots()[s].len() == self.buffer.spec_len() by {
                assert(self.buffer.spec_slots()[s] == spec_zeroed(len as nat));
            }
            assert(self.buffer.spec_slots() =~= spec_count_reads(
                self.filter,
                b0,
                reads@,
                interval.start as int,
                len as nat,
                0,
            ).0);
        }
        let mut hits: usize = 0;
        let mut n: usize = 0;
        while n < reads.len()
            invariant
                n <= reads@.len(),
                self.filter == old(self).filter,
                self.buffer.spec_labels() == b0.spec_labels(),
                self.buffer.spec_len() == len,
                spec_buffer_wf(&self.buffer),
                self.mapped == old(self).mapped,
                len == interval.spec_len(),
                forall|r: &AlignedRead| #[trigger] self.buffer.spec_route(r) == b0.spec_route(r),
                self.buffer.spec_slots().len() == b0.spec_slots().len(),
                ({
                    let (slots, h) = spec_count_reads(
                        self.filter,
                        b0,
                        reads@,
                        interval.start as int,
                        len as nat,
                        n as nat,
                    );
                    &&& self.buffer.spec_slots() == slots
                    &&& hits == h
                }),
            decreases reads@.len() - n,
        {
            proof {
                lemma_count_reads_shape(self.filter, b0, reads@, interval.start as int, len as nat, n as nat);
                b0.lemma_route(&reads@[n as int]);
            }
            let read = &reads[n];
            if self.filter.is_read_ok(read) {
                let slot = self.buffer.buffer_for(read);
                let ghost before = slot@;
                let hit = count_read(&self.filter, slot, read, interval.start);
                proof {
                    lemma_count_read_len(self.filter, before, read, interval.start as int, read.blocks@.len());
                }
                if hit {
                    hits = hits + 1;
                }
            }
            n += 1;
        }
        proof {
            lemma_count_reads_shape(self.filter, b0, reads@, interval.start as int, len as nat, n as nat);
        }
        self.mapped = self.mapped.saturating_add(hits as u64);
    }
}

} // verus!
