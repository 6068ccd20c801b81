use vstd::prelude::*;

use crate::buffers::{spec_labelled, spec_view_of, CountsBuffer, CountsBufferContent};
use crate::counter::{spec_count_reads, NucCounter};
use crate::dna::{NucCounts, Nucleotide};
use crate::filters::ROISummaryFilter;
use crate::hooks::{spec_kept, REATHooksEngine};
use crate::mismatches::{sat_add, ROINucCounts};
use crate::reads::AlignedRead;
use crate::refpred::{spec_ref_at, ByMostFrequent, PredNucleotide};
use crate::stats::{spec_combine_all, spec_process_all, IntervalBasedStat};
use crate::strand::Strand;
use crate::stranding::{spec_stranded, ROIStrandPredictor, ROIStrandingEngine};
use crate::summary::{spec_roi_data, Interval, ROISummary};
use crate::validate::{parse_u64, spec_parse_u64};
use vstd::string::StringSliceAdditionalSpecFns;

verus! {

/// A region of interest: an interval and its name.
#[derive(Clone, Debug)]
pub struct ROIWorkload {
    pub interval: Interval,
    pub name: String,
}

impl ROIWorkload {
    /// The region of the fields of a BED line: contig, start, end and name; `None`
    /// where start or end is not a decimal `u64`, or end lies before start.
    pub fn from_bed_fields(contig: &str, start: &str, end: &str, name: &str) -> (r: Option<ROIWorkload>)
        ensures
            match (spec_parse_u64(start.spec_bytes()), spec_parse_u64(end.spec_bytes())) {
                (Some(s), Some(e)) if s <= e => r matches Some(w) && w.interval.contig@ == contig@
                    && w.interval.start == s && w.interval.end == e && w.name@ == name@,
                _ => r is None,
            },
    {
        match (parse_u64(start), parse_u64(end)) {
            (Some(s), Some(e)) => if s <= e {
                Some(ROIWorkload {
                    interval: Interval { contig: contig.to_owned(), start: s, end: e },
                    name: name.to_owned(),
                })
            } else {
                None
            },
            _ => None,
        }
    }
}

/// The calls of the loci of a tally slot.
pub open spec fn spec_calls(
    refpred: ByMostFrequent,
    reference: Seq<Nucleotide>,
    counts: Seq<NucCounts>,
) -> Seq<PredNucleotide> {
    Seq::new(counts.len(), |i: int| refpred.spec_predict(spec_ref_at(reference, i), counts[i]))
}

/// The record of one strand view of a region.
pub open spec fn spec_record(
    refpred: ByMostFrequent,
    w: ROIWorkload,
    reference: Seq<Nucleotide>,
    view: (Strand, Seq<NucCounts>),
) -> ROISummary {
    ROISummary::spec_from_counts(
        w.interval,
        w.name,
        view.0,
        spec_calls(refpred, reference, view.1),
        view.1,
    )
}

/// The record of a view appended to `recs`, unless its homozygous loci have no
/// tallied base.
pub open spec fn spec_push_record(recs: Seq<ROISummary>, rec: ROISummary) -> Seq<ROISummary> {
    if rec.data.mismatches.spec_coverage() == 0 {
        recs
    } else {
        recs.push(rec)
    }
}

/// The records of the strand views, in their order.
pub open spec fn spec_records(
    refpred: ByMostFrequent,
    w: ROIWorkload,
    reference: Seq<Nucleotide>,
    views: Seq<(Strand, Seq<NucCounts>)>,
) -> Seq<ROISummary>
    decreases views.len(),
{
    if views.len() == 0 {
        Seq::empty()
    } else {
        spec_push_record(
            spec_records(refpred, w, reference, views.drop_last()),
            spec_record(refpred, w, reference, views.last()),
        )
    }
}

/// Everything one worker needs to process regions: its counter, reference
/// predictor, strand predictors, statistics and filters. It is never shared
/// between workers while in use.
#[derive(Clone, Debug)]
pub struct BaseRunCtx<B, P, S, F> {
    pub counter: NucCounter<B>,
    pub refpred: ByMostFrequent,
    pub stranding: ROIStrandingEngine<P>,
    pub hooks: REATHooksEngine<S, F>,
}

/// The strand views of the buffer after counting `reads` over `interval`.
pub open spec fn spec_views<B: CountsBuffer>(
    counter: NucCounter<B>,
    interval: Interval,
    reads: Seq<AlignedRead>,
) -> Seq<(Strand, Seq<NucCounts>)> {
    spec_labelled(
        counter.buffer.spec_labels(),
        spec_count_reads(
            counter.filter,
            counter.buffer,
            reads,
            interval.start as int,
            interval.spec_len(),
            reads.len(),
        ).0,
    )
}

/// The records of a region after strand resolution, before filtering.
pub open spec fn spec_resolved<B: CountsBuffer, P: ROIStrandPredictor, S, F>(
    ctx: BaseRunCtx<B, P, S, F>,
    w: ROIWorkload,
    reads: Seq<AlignedRead>,
    reference: Seq<Nucleotide>,
) -> Seq<ROISummary> {
    let views = spec_views(ctx.counter, w.interval, reads);
    spec_records(ctx.refpred, w, reference, views).map_values(
        |rec: ROISummary| spec_stranded(ctx.stranding.predictors@, rec),
    )
}

impl<B: CountsBuffer, P: ROIStrandPredictor, S: IntervalBasedStat, F: ROISummaryFilter> BaseRunCtx<
    B,
    P,
    S,
    F,
> {
    pub fn new(
        counter: NucCounter<B>,
        refpred: ByMostFrequent,
        stranding: ROIStrandingEngine<P>,
        hooks: REATHooksEngine<S, F>,
    ) -> (r: Self)
        ensures
            r == (BaseRunCtx { counter, refpred, stranding, hooks }),
    {
        BaseRunCtx { counter, refpred, stranding, hooks }
    }

    /// Reads that contributed a tally, since the context was made.
    pub fn mapped(&self) -> (r: u64)
        ensures
            r == self.counter.mapped,
    {
        self.counter.mapped
    }

    fn push_record(
        &self,
        w: &ROIWorkload,
        strand: Strand,
        counts: &[NucCounts],
        reference: &Vec<Nucleotide>,
        recs: &mut Vec<ROISummary>,
    )
        ensures
            final(recs)@ == spec_push_record(
                old(recs)@,
                spec_record(self.refpred, *w, reference@, (strand, counts@)),
            ),
    {
        let calls = self.refpred.predict_seq(reference, counts);
        proof {
            assert(calls@ =~= spec_calls(self.refpred, reference@, counts@));
        }
        let rec = ROISummary::from_counts(w.interval.duplicate(), w.name.clone(), strand, &calls, counts);
        if rec.data.mismatches.coverage() != 0 {
            recs.push(rec);
        }
    }

    /// The records of the populated views of `content`: forward, reverse, then unstranded.
    fn records(&self, w: &ROIWorkload, content: &CountsBufferContent, reference: &Vec<Nucleotide>) -> (r: Vec<ROISummary>)
        ensures
            r@ == spec_records(self.refpred, *w, reference@, content.spec_views()),
    {
        let mut r: Vec<ROISummary> = Vec::new();
        let ghost f = spec_view_of(Strand::Forward, content.forward);
        let ghost fr = f + spec_view_of(Strand::Reverse, content.reverse);
        if let Some(counts) = content.forward {
            self.push_record(w, Strand::Forward, counts, reference, &mut r);
            proof {
                assert(f.drop_last() =~= Seq::<(Strand, Seq<NucCounts>)>::empty());
                assert(spec_records(self.refpred, *w, reference@, f.drop_last()) == Seq::<ROISummary>::empty());
                assert(f.last() == (Strand::Forward, counts@));
            }
        } else {
            assert(f =~= Seq::<(Strand, Seq<NucCounts>)>::empty());
        }
        assert(r@ == spec_records(self.refpred, *w, reference@, f));
        if let Some(counts) = content.reverse {
            self.push_record(w, Strand::Reverse, counts, reference, &mut r);
            proof {
                assert(fr.drop_last() =~= f);
            }
        } else {
            assert(fr =~= f);
        }
        assert(r@ == spec_records(self.refpred, *w, reference@, fr));
        if let Some(counts) = content.unstranded {
            self.push_record(w, Strand::Unknown, counts, reference, &mut r);
            proof {
                assert(content.spec_views().drop_last() =~= fr);
            }
        } else {
            assert(content.spec_views() =~= fr);
        }
        r
    }

    /// Processes one region: counts `reads` over it, calls each locus from the
    /// tallies and `reference` (the reference bases of the region), builds a
    /// record per strand view with some tallied base, resolves unknown strands,
    /// lets every statistic observe every record and returns those that pass the
    /// filters.
    pub fn run(&mut self, w: &ROIWorkload, reads: &Vec<AlignedRead>, reference: &Vec<Nucleotide>) -> (r: Vec<ROISummary>)
        requires
            w.interval.spec_len() <= u32::MAX,
        ensures
            ({
                let resolved = spec_resolved(*old(self), *w, reads@, reference@);
                &&& r@ == spec_kept(old(self).hooks.filters@, resolved)
                &&& final(self).hooks.stats@.len() == old(self).hooks.stats@.len()
                &&& forall|i: int|
                    0 <= i < old(self).hooks.stats@.len() ==> final(self).hooks.stats@[i]
                        == spec_process_all(old(self).hooks.stats@[i], resolved)
            }),
            final(self).counter.mapped == sat_add(
                old(self).counter.mapped,
                spec_count_reads(
                    old(self).counter.filter,
                    old(self).counter.buffer,
                    reads@,
                    w.interval.start as int,
                    w.interval.spec_len(),
                    reads@.len(),
                ).1 as u64,
            ),
            final(self).hooks.filters@ == old(self).hooks.filters@,
            final(self).refpred == old(self).refpred,
            final(self).stranding == old(self).stranding,
            final(self).counter.filter == old(self).counter.filter,
            final(self).counter.buffer.spec_labels() == old(self).counter.buffer.spec_labels(),
            forall|q: &AlignedRead| #[trigger]
                final(self).counter.buffer.spec_route(q) == old(self).counter.buffer.spec_route(q),
    {
        self.counter.count(&w.interval, reads);
        let recs = {
            let content = self.counter.buffer.content();
            self.records(w, &content, reference)
        };
        let stranded = self.stranding.strand(recs);
        proof {
            assert(stranded@ =~= spec_resolved(*old(self), *w, reads@, reference@));
        }
        self.hooks.on_finish(stranded)
    }
}

/// Reads counted by all contexts, held at `u64::MAX`.
pub open spec fn spec_mapped_total<B, P, S, F>(ctxs: Seq<BaseRunCtx<B, P, S, F>>) -> u64
    decreases ctxs.len(),
{
    if ctxs.len() == 0 {
        0
    } else {
        sat_add(spec_mapped_total(ctxs.drop_last()), ctxs.last().counter.mapped)
    }
}

/// Reads counted by all contexts, once every worker is done.
pub fn mapped_total<B, P, S, F>(ctxs: &Vec<BaseRunCtx<B, P, S, F>>) -> (r: u64)
    ensures
        r == spec_mapped_total(ctxs@),
{
    let mut r: u64 = 0;
    let mut k: usize = 0;
    while k < ctxs.len()
        invariant
            k <= ctxs@.len(),
            r == spec_mapped_total(ctxs@.subrange(0, k as int)),
        decreases ctxs@.len() - k,
    {
        proof {
            assert(ctxs@.subrange(0, k + 1).drop_last() =~= ctxs@.subrange(0, k as int));
        }
        r = r.saturating_add(ctxs[k].counter.mapped);
        k += 1;
    }
    proof {
        assert(ctxs@.subrange(0, k as int) =~= ctxs@);
    }
    r
}

/// Statistic `j` of every context, in the order of the contexts.
pub open spec fn spec_partials<B, P, S, F>(ctxs: Seq<BaseRunCtx<B, P, S, F>>, j: int) -> Seq<S> {
    Seq::new(ctxs.len(), |k: int| ctxs[k].hooks.stats@[j])
}

/// Merges, for each statistic, its partials over all contexts, once every
/// worker is done; all contexts hold the same number of statistics.
pub fn combined_stats<B, P, S: IntervalBasedStat, F>(ctxs: &Vec<BaseRunCtx<B, P, S, F>>) -> (r: Vec<S>)
    requires
        forall|k: int|
            0 <= k < ctxs@.len() ==> #[trigger] ctxs@[k].hooks.stats@.len() == ctxs@[0].hooks.stats@.len(),
    ensures
        ctxs@.len() == 0 ==> r@.len() == 0,
        ctxs@.len() > 0 ==> r@.len() == ctxs@[0].hooks.stats@.len(),
        forall|j: int| 0 <= j < r@.len() ==> r@[j] == spec_combine_all(spec_partials(ctxs@, j)),
{
    let mut r: Vec<S> = Vec::new();
    if ctxs.len() == 0 {
        return r;
    }
    let n = ctxs[0].hooks.stats.len();
    let mut j: usize = 0;
    while j < n
        invariant
            n == ctxs@[0].hooks.stats@.len(),
            ctxs@.len() > 0,
            forall|k: int|
                0 <= k < ctxs@.len() ==> #[trigger] ctxs@[k].hooks.stats@.len() == n,
            j <= n,
            r@.len() == j,
            forall|i: int| 0 <= i < j ==> r@[i] == spec_combine_all(spec_partials(ctxs@, i)),
        decreases n - j,
    {
        let mut acc = S::zero();
        let mut k: usize = 0;
        while k < ctxs.len()
            invariant
                j < n,
                forall|k: int|
                    0 <= k < ctxs@.len() ==> #[trigger] ctxs@[k].hooks.stats@.len() == n,
                k <= ctxs@.len(),
                acc == spec_combine_all(spec_partials(ctxs@, j as int).subrange(0, k as int)),
            decreases ctxs@.len() - k,
        {
            proof {
                let parts = spec_partials(ctxs@, j as int);
                assert(parts.subrange(0, k + 1).drop_last() =~= parts.subrange(0, k as int));
                assert(ctxs@[k as int].hooks.stats@.len() == n);
            }
            acc = acc.combine(&ctxs[k].hooks.stats[j]);
            k += 1;
        }
        proof {
            assert(spec_partials(ctxs@, j as int).subrange(0, k as int) =~= spec_partials(ctxs@, j as int));
        }
        r.push(acc);
        j += 1;
    }
    r
}

proof fn lemma_zero_counts_data(pred: Seq<PredNucleotide>, counts: Seq<NucCounts>, n: nat)
    requires
        n <= counts.len(),
        forall|i: int| 0 <= i < n ==> #[trigger] counts[i] == NucCounts::spec_zeros(),
    ensures
        spec_roi_data(pred, counts, n).mismatches == ROINucCounts::spec_zeros(),
    decreases n,
{
    if n > 0 {
        lemma_zero_counts_data(pred, counts, (n - 1) as nat);
    }
}

proof fn lemma_zero_views_no_records(
    refpred: ByMostFrequent,
    w: ROIWorkload,
    reference: Seq<Nucleotide>,
    views: Seq<(Strand, Seq<NucCounts>)>,
)
    requires
        forall|s: int, i: int|
            0 <= s < views.len() && 0 <= i < views[s].1.len() ==> #[trigger] views[s].1[i]
                == NucCounts::spec_zeros(),
    ensures
        spec_records(refpred, w, reference, views) == Seq::<ROISummary>::empty(),
    decreases views.len(),
{
    if views.len() > 0 {
        let last = views.last();
        assert(forall|i: int| 0 <= i < last.1.len() ==> #[trigger] last.1[i] == views[views.len() - 1].1[i]);
        lemma_zero_counts_data(spec_calls(refpred, reference, last.1), last.1, last.1.len());
        lemma_zero_views_no_records(refpred, w, reference, views.drop_last());
    }
}

/// A region without reads gives no record and adds no mapped read, whatever the
/// filters.
pub proof fn lemma_uncovered_region<B: CountsBuffer, P: ROIStrandPredictor, S, F: ROISummaryFilter>(
    ctx: BaseRunCtx<B, P, S, F>,
    w: ROIWorkload,
    reference: Seq<Nucleotide>,
)
    ensures
        spec_resolved(ctx, w, Seq::empty(), reference) == Seq::<ROISummary>::empty(),
        spec_kept(ctx.hooks.filters@, spec_resolved(ctx, w, Seq::empty(), reference))
            == Seq::<ROISummary>::empty(),
        spec_count_reads(
            ctx.counter.filter,
            ctx.counter.buffer,
            Seq::empty(),
            w.interval.start as int,
            w.interval.spec_len(),
            0,
        ).1 == 0,
{
    let views = spec_views(ctx.counter, w.interval, Seq::empty());
    assert forall|s: int, i: int|
        0 <= s < views.len() && 0 <= i < views[s].1.len() implies #[trigger] views[s].1[i]
            == NucCounts::spec_zeros() by {
    }
    lemma_zero_views_no_records(ctx.refpred, w, reference, views);
    assert(spec_resolved(ctx, w, Seq::empty(), reference) =~= Seq::<ROISummary>::empty());
}

} // verus!
