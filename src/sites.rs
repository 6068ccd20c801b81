use vstd::prelude::*;

use crate::buffers::{spec_view_of, CountsBuffer, CountsBufferContent};
use crate::counter::{spec_count_reads, NucCounter};
use crate::dna::{NucCounts, Nucleotide};
use crate::editing::StrandByAtoIEditing;
use crate::filters::ByMismatches;
use crate::freq::count_bound;
use crate::mismatches::sat_add;
use crate::reads::AlignedRead;
use crate::refpred::{spec_ref_at, ByMostFrequent, PredNucleotide};
use crate::run::spec_views;
use crate::strand::Strand;
use crate::summary::Interval;

verus! {

/// A mismatch record of one locus on one strand.
#[derive(Clone, Debug, PartialEq, Eq, Hash)]
pub struct SiteSummary {
    pub contig: String,
    pub pos: u64,
    pub strand: Strand,
    pub prednuc: PredNucleotide,
    pub sequenced: NucCounts,
}

impl SiteSummary {
    /// Tallied bases that differ from the call; all of them where the call is indeterminate.
    pub open spec fn spec_mismatches(&self) -> nat {
        let cnt = self.sequenced;
        match self.prednuc {
            PredNucleotide::Homozygous(n) => (cnt.spec_coverage() - cnt.spec_get(n)) as nat,
            PredNucleotide::Heterozygous(n1, n2) => if n1 == n2 {
                (cnt.spec_coverage() - cnt.spec_get(n1)) as nat
            } else {
                (cnt.spec_coverage() - cnt.spec_get(n1) - cnt.spec_get(n2)) as nat
            },
        }
    }

    pub fn mismatches(&self) -> (r: u64)
        ensures
            r == self.spec_mismatches(),
    {
        let cnt = &self.sequenced;
        match self.prednuc {
            PredNucleotide::Homozygous(n) => cnt.coverage() - cnt.get(n) as u64,
            PredNucleotide::Heterozygous(n1, n2) => if n1 == n2 {
                cnt.coverage() - cnt.get(n1) as u64
            } else {
                cnt.coverage() - cnt.get(n1) as u64 - cnt.get(n2) as u64
            },
        }
    }
}

/// An algorithm that calls the strand of a site record.
pub trait LocusStrandPredictor {
    spec fn spec_predict(&self, rec: &SiteSummary) -> Strand;

    fn predict(&self, rec: &SiteSummary) -> (r: Strand)
        ensures
            r == self.spec_predict(rec),
    ;
}

/// A predicate that decides which site records are kept.
pub trait LocusSummaryFilter {
    spec fn spec_is_ok(&self, rec: &SiteSummary) -> bool;

    fn is_ok(&self, rec: &SiteSummary) -> (r: bool)
        ensures
            r == self.spec_is_ok(rec),
    ;
}

impl LocusStrandPredictor for StrandByAtoIEditing {
    open spec fn spec_predict(&self, rec: &SiteSummary) -> Strand {
        self.spec_site_strand(rec.prednuc, rec.sequenced)
    }

    fn predict(&self, rec: &SiteSummary) -> (r: Strand) {
        self.site_strand(rec.prednuc, &rec.sequenced)
    }
}

impl LocusSummaryFilter for ByMismatches {
    open spec fn spec_is_ok(&self, rec: &SiteSummary) -> bool {
        let cov = rec.sequenced.spec_coverage();
        let mm = rec.spec_mismatches();
        &&& cov >= self.mincov
        &&& mm >= self.minmismatches
        &&& self.minfreq.spec_reached_by(mm, cov)
    }

    fn is_ok(&self, rec: &SiteSummary) -> (r: bool) {
        let cov = rec.sequenced.coverage();
        let mm = rec.mismatches();
        assert(count_bound() == 0x1_0000_0000_0000_0000_0000_0000);
        cov >= self.mincov as u64 && mm >= self.minmismatches as u64 && self.minfreq.reached_by(
            mm as u128,
            cov as u128,
        )
    }
}

/// Everything one worker needs to process loci one by one.
#[derive(Clone, Debug)]
pub struct LociRunCtx<B, P, F> {
    pub counter: NucCounter<B>,
    pub refpred: ByMostFrequent,
    pub strandpred: P,
    pub filter: F,
}

/// The site of locus `i` of a strand view, its strand called where unknown.
pub open spec fn spec_site<P: LocusStrandPredictor>(
    refpred: ByMostFrequent,
    strandpred: P,
    interval: Interval,
    reference: Seq<Nucleotide>,
    view: (Strand, Seq<NucCounts>),
    i: int,
) -> SiteSummary {
    let cnt = view.1[i];
    let site = SiteSummary {
        contig: interval.contig,
        pos: sat_add(interval.start, i as u64),
        strand: view.0,
        prednuc: refpred.spec_predict(spec_ref_at(reference, i), cnt),
        sequenced: cnt,
    };
    if view.0 is Unknown {
        SiteSummary { strand: strandpred.spec_predict(&site), ..site }
    } else {
        site
    }
}

/// The kept sites among the first `n` loci of a strand view: loci with a tallied
/// base whose site passes the filter.
pub open spec fn spec_view_sites<P: LocusStrandPredictor, F: LocusSummaryFilter>(
    refpred: ByMostFrequent,
    strandpred: P,
    filter: F,
    interval: Interval,
    reference: Seq<Nucleotide>,
    view: (Strand, Seq<NucCounts>),
    n: nat,
) -> Seq<SiteSummary>
    decreases n,
{
    if n == 0 {
        Seq::empty()
    } else {
        let prev = spec_view_sites(refpred, strandpred, filter, interval, reference, view, (n - 1) as nat);
        let site = spec_site(refpred, strandpred, interval, reference, view, n - 1);
        if view.1[n - 1].spec_coverage() > 0 && filter.spec_is_ok(&site) {
            prev.push(site)
        } else {
            prev
        }
    }
}

/// The kept sites of all strand views, view after view.
pub open spec fn spec_sites<P: LocusStrandPredictor, F: LocusSummaryFilter>(
    refpred: ByMostFrequent,
    strandpred: P,
    filter: F,
    interval: Interval,
    reference: Seq<Nucleotide>,
    views: Seq<(Strand, Seq<NucCounts>)>,
) -> Seq<SiteSummary>
    decreases views.len(),
{
    if views.len() == 0 {
        Seq::empty()
    } else {
        spec_sites(refpred, strandpred, filter, interval, reference, views.drop_last())
            + spec_view_sites(refpred, strandpred, filter, interval, reference, views.last(), views.last().1.len())
    }
}

impl<B: CountsBuffer, P: LocusStrandPredictor, F: LocusSummaryFilter> LociRunCtx<B, P, F> {
    pub fn new(counter: NucCounter<B>, refpred: ByMostFrequent, strandpred: P, filter: F) -> (r: Self)
        ensures
            r == (LociRunCtx { counter, refpred, strandpred, filter }),
    {
        LociRunCtx { counter, refpred, strandpred, filter }
    }

    /// Reads that contributed a tally, since the context was made.
    pub fn mapped(&self) -> (r: u64)
        ensures
            r == self.counter.mapped,
    {
        self.counter.mapped
    }

    fn push_sites(
        &self,
        interval: &Interval,
        strand: Strand,
        counts: &[NucCounts],
        reference: &Vec<Nucleotide>,
        out: &mut Vec<SiteSummary>,
    )
        ensures
            final(out)@ == old(out)@ + spec_view_sites(
                self.refpred,
                self.strandpred,
                self.filter,
                *interval,
                reference@,
                (strand, counts@),
                counts@.len(),
            ),
    {
        let ghost out0 = out@;
        let ghost view = (strand, counts@);
        let mut i: usize = 0;
        while i < counts.len()
            invariant
                i <= counts@.len(),
                view == (strand, counts@),
                out@ == out0 + spec_view_sites(
                    self.refpred,
                    self.strandpred,
                    self.filter,
                    *interval,
                    reference@,
                    view,
                    i as nat,
                ),
            decreases counts@.len() - i,
        {
            let cnt = counts[i];
            if cnt.coverage() > 0 {
                let refnuc = if i < reference.len() {
                    reference[i]
                } else {
                    Nucleotide::Unknown
                };
                let mut site = SiteSummary {
                    contig: interval.contig.clone(),
                    pos: interval.start.saturating_add(i as u64),
                    strand,
                    prednuc: self.refpred.predict(refnuc, &cnt),
                    sequenced: cnt,
                };
                if strand.is_unknown() {
                    site.strand = self.strandpred.predict(&site);
                }
                if self.filter.is_ok(&site) {
                    out.push(site);
                }
            }
            proof {
                let next = spec_view_sites(
                    self.refpred,
                    self.strandpred,
                    self.filter,
                    *interval,
                    reference@,
                    view,
                    (i + 1) as nat,
                );
                assert(out@ =~= out0 + next);
            }
            i += 1;
        }
    }

    fn sites(&self, interval: &Interval, content: &CountsBufferContent, reference: &Vec<Nucleotide>) -> (r: Vec<SiteSummary>)
        ensures
            r@ == spec_sites(self.refpred, self.strandpred, self.filter, *interval, reference@, content.spec_views()),
    {
        let mut r: Vec<SiteSummary> = Vec::new();
        let ghost f = spec_view_of(Strand::Forward, content.forward);
        let ghost fr = f + spec_view_of(Strand::Reverse, content.reverse);
        if let Some(counts) = content.forward {
            self.push_sites(interval, Strand::Forward, counts, reference, &mut r);
            proof {
                assert(f.drop_last() =~= Seq::<(Strand, Seq<NucCounts>)>::empty());
                assert(spec_sites(self.refpred, self.strandpred, self.filter, *interval, reference@, f.drop_last()) == Seq::<SiteSummary>::empty());
                assert(f.last() == (Strand::Forward, counts@));
                assert(r@ =~= spec_sites(self.refpred, self.strandpred, self.filter, *interval, reference@, f));
            }
        } else {
            assert(f =~= Seq::<(Strand, Seq<NucCounts>)>::empty());
        }
        assert(r@ == spec_sites(self.refpred, self.strandpred, self.filter, *interval, reference@, f));
        if let Some(counts) = content.reverse {
            self.push_sites(interval, Strand::Reverse, counts, reference, &mut r);
            proof {
                assert(fr.drop_last() =~= f);
            }
        } else {
            assert(fr =~= f);
        }
        assert(r@ == spec_sites(self.refpred, self.strandpred, self.filter, *interval, reference@, fr));
        if let Some(counts) = content.unstranded {
            self.push_sites(interval, Strand::Unknown, counts, reference, &mut r);
            proof {
                assert(content.spec_views().drop_last() =~= fr);
            }
        } else {
            assert(content.spec_views() =~= fr);
        }
        r
    }

    /// Processes the loci of one interval: counts `reads` over it, calls each
    /// locus from its tally and `reference`, and returns a site per strand view
    /// and locus with a tallied base, its strand called where unknown, that
    /// passes the filter.
    pub fn run(&mut self, interval: &Interval, reads: &Vec<AlignedRead>, reference: &Vec<Nucleotide>) -> (r: Vec<SiteSummary>)
        requires
            interval.spec_len() <= u32::MAX,
        ensures
            r@ == spec_sites(
                old(self).refpred,
                old(self).strandpred,
                old(self).filter,
                *interval,
                reference@,
                spec_views(old(self).counter, *interval, reads@),
            ),
            final(self).counter.mapped == crate::mismatches::sat_add(
                old(self).counter.mapped,
                spec_count_reads(
                    old(self).counter.filter,
                    old(self).counter.buffer,
                    reads@,
                    interval.start as int,
                    interval.spec_len(),
                    reads@.len(),
                ).1 as u64,
            ),
            final(self).refpred == old(self).refpred,
            final(self).strandpred == old(self).strandpred,
            final(self).filter == old(self).filter,
            final(self).counter.filter == old(self).counter.filter,
            final(self).counter.buffer.spec_labels() == old(self).counter.buffer.spec_labels(),
            forall|q: &AlignedRead| #[trigger]
                final(self).counter.buffer.spec_route(q) == old(self).counter.buffer.spec_route(q),
    {
        self.counter.count(interval, reads);
        let content = self.counter.buffer.content();
        self.sites(interval, &content, reference)
    }
}

} // verus!
