use std::cmp::Ordering;

use reat::buffers::{StrandedCountsBuffer, UnstrandedCountsBuffer};
use reat::counter::{NucCounter, ReadsFilter};
use reat::dna::{NucCounts, Nucleotide};
use reat::editing::StrandByAtoIEditing;
use reat::filters::{ByMismatches, ROISummaryFilter};
use reat::freq::Frequency;
use reat::hooks::REATHooksEngine;
use reat::mismatches::{NucTotals, ROINucCounts};
use reat::output::{pos_then_strand_then_name, sort_for_output};
use reat::reads::{AlignedBlock, AlignedRead, StrandSpecificExperimentDesign};
use reat::refpred::{ByMostFrequent, PredNucleotide};
use reat::run::{combined_stats, mapped_total, BaseRunCtx, ROIWorkload};
use reat::stats::{combine_all, EditingIndex, IntervalBasedStat};
use reat::strand::Strand;
use reat::stranding::ROIStrandingEngine;
use reat::summary::{Interval, ROIData, ROISummary};

fn record(start: u64, end: u64, name: &str, strand: Strand, a2g: (u64, u64), t2c: (u64, u64)) -> ROISummary {
    let mut m = ROINucCounts::zeros();
    m.a.a = a2g.0;
    m.a.g = a2g.1;
    m.t.t = t2c.0;
    m.t.c = t2c.1;
    ROISummary {
        interval: Interval::new("chr1".to_string(), start, end),
        name: name.to_string(),
        strand,
        data: ROIData {
            coverage: a2g.0 + a2g.1 + t2c.0 + t2c.1,
            homozygous: NucTotals::zeros(),
            heterozygous: 0,
            nucmasked: 0,
            mismatches: m,
        },
    }
}

fn mapped_read(flags: u16, refstart: u64, seq: &str) -> AlignedRead {
    let blocks = vec![AlignedBlock { refstart, qstart: 0, len: seq.len() as u64 }];
    AlignedRead::new(flags, 60, blocks, seq.as_bytes().to_vec(), vec![30; seq.len()])
}

type Ctx<B> = BaseRunCtx<B, StrandByAtoIEditing, EditingIndex, ByMismatches>;

fn context<B: reat::buffers::CountsBuffer>(buffer: B) -> Ctx<B> {
    let mut stranding = ROIStrandingEngine::new();
    stranding.add(StrandByAtoIEditing::new(3, Frequency::new(1, 100)));
    let mut hooks = REATHooksEngine::new();
    hooks.add_stat(EditingIndex::zero());
    hooks.add_filter(ByMismatches::new(3, Frequency::new(1, 100), 5));
    BaseRunCtx::new(
        NucCounter::new(ReadsFilter::new(0, 0, 0, 0), buffer),
        ByMostFrequent::new(1, Frequency::new(1, 2)),
        stranding,
        hooks,
    )
}

fn workload(start: u64, end: u64, name: &str) -> ROIWorkload {
    ROIWorkload { interval: Interval::new("chr1".to_string(), start, end), name: name.to_string() }
}

#[test]
fn covered_and_empty_regions() {
    let mut ctx = context(UnstrandedCountsBuffer::new(16));
    let reference = vec![Nucleotide::A; 10];
    let mut reads = Vec::new();
    for i in 0..10 {
        let seq = if i < 4 { "AAAAGAAAAA" } else { "AAAAAAAAAA" };
        reads.push(mapped_read(0, 100, seq));
    }
    let a = ctx.run(&workload(100, 110, "A"), &reads, &reference);
    let b = ctx.run(&workload(200, 210, "B"), &vec![], &reference);
    assert_eq!(a.len(), 1);
    assert!(b.is_empty());
    assert_eq!(a[0].name, "A");
    assert_eq!(a[0].strand, Strand::Forward);
    assert_eq!(a[0].data.coverage, 100);
    assert_eq!(a[0].data.mismatches.a, NucTotals::new(96, 0, 4, 0));
    assert_eq!(a[0].data.homozygous, NucTotals::new(10, 0, 0, 0));
    let ctxs = vec![ctx];
    assert_eq!(mapped_total(&ctxs), 10);
    let stats = combined_stats(&ctxs);
    assert_eq!(stats.len(), 1);
    assert_eq!(stats[0].mismatches.a.g, 4);
}

#[test]
fn reads_outside_interval_are_not_mapped() {
    let mut ctx = context(UnstrandedCountsBuffer::new(16));
    let reference = vec![Nucleotide::A; 10];
    // overlaps the first two positions only, with its last two bases
    let overlapping = mapped_read(0, 96, "CCCCGG");
    let outside = mapped_read(0, 300, "GGGG");
    let recs = ctx.run(&workload(100, 110, "A"), &vec![overlapping, outside], &reference);
    assert_eq!(ctx.mapped(), 1);
    let counts = match ctx.counter.buffer.buffer.get(0) {
        Some(c) => *c,
        None => panic!("buffer must cover the interval"),
    };
    assert_eq!(counts, NucCounts::new(0, 0, 1, 0));
    // one G per covered locus is called homozygous G: no mismatch, filtered out
    assert!(recs.is_empty());
}

#[test]
fn low_quality_and_unknown_bases_are_skipped() {
    let mut counter = NucCounter::new(ReadsFilter::new(20, 0, 0x400, 10), UnstrandedCountsBuffer::new(4));
    let mut good = mapped_read(0, 0, "ANGT");
    good.qual = vec![30, 30, 5, 30];
    let duplicate = mapped_read(0x400, 0, "AAAA");
    let mut lowmapq = mapped_read(0, 0, "AAAA");
    lowmapq.mapq = 10;
    counter.count(&Interval::new("chr1".to_string(), 0, 4), &vec![good, duplicate, lowmapq]);
    assert_eq!(
        counter.buffer.buffer,
        vec![NucCounts::new(1, 0, 0, 0), NucCounts::zeros(), NucCounts::zeros(), NucCounts::new(0, 0, 0, 1)]
    );
    assert_eq!(counter.mapped, 1);
}

#[test]
fn stranded_run_splits_records() {
    let mut ctx = context(StrandedCountsBuffer::new(StrandSpecificExperimentDesign::Same, 16));
    let reference = vec![Nucleotide::A; 10];
    let mut reads = Vec::new();
    for i in 0..20 {
        let seq = if i < 8 { "AAAAGAAAAA" } else { "AAAAAAAAAA" };
        reads.push(mapped_read(if i % 2 == 0 { 0 } else { 0x10 }, 100, seq));
    }
    let recs = ctx.run(&workload(100, 110, "A"), &reads, &reference);
    assert_eq!(recs.len(), 2);
    assert_eq!(recs[0].strand, Strand::Forward);
    assert_eq!(recs[1].strand, Strand::Reverse);
    assert_eq!(recs[0].data.mismatches.a, NucTotals::new(96, 0, 4, 0));
    assert_eq!(recs[1].data.mismatches.a, NucTotals::new(96, 0, 4, 0));
    assert_eq!(ctx.mapped(), 20);
}

#[test]
fn strand_engine_keeps_every_record() {
    let mut engine = ROIStrandingEngine::new();
    engine.add(StrandByAtoIEditing::new(8, Frequency::new(5, 100)));
    engine.add(StrandByAtoIEditing::new(1, Frequency::new(1, 100)));
    let items = vec![
        // resolved: kept as it is, though the predictors would call it forward
        record(1, 2, "a", Strand::Reverse, (10, 10), (0, 0)),
        // resolved by the first predictor
        record(3, 4, "b", Strand::Unknown, (8, 8), (0, 0)),
        // left to the second predictor
        record(5, 6, "c", Strand::Unknown, (0, 0), (100, 2)),
        // left unknown
        record(7, 8, "d", Strand::Unknown, (0, 0), (0, 0)),
    ];
    let out = engine.strand(items);
    assert_eq!(out.len(), 4);
    let strands: Vec<Strand> = out.iter().map(|x| x.strand).collect();
    assert_eq!(strands, vec![Strand::Reverse, Strand::Forward, Strand::Reverse, Strand::Unknown]);
    let names: Vec<&str> = out.iter().map(|x| x.name.as_str()).collect();
    assert_eq!(names, vec!["a", "b", "c", "d"]);
    // no predictor: nothing changes
    let empty: ROIStrandingEngine<StrandByAtoIEditing> = ROIStrandingEngine::new();
    let out = empty.strand(vec![record(1, 2, "x", Strand::Unknown, (8, 8), (0, 0))]);
    assert_eq!(out[0].strand, Strand::Unknown);
}

#[test]
fn stat_partials_match_single_pass() {
    let recs = vec![
        record(1, 2, "a", Strand::Forward, (10, 3), (0, 0)),
        record(3, 4, "b", Strand::Unknown, (5, 0), (7, 2)),
        record(5, 6, "c", Strand::Reverse, (1, 1), (9, 9)),
    ];
    let mut single = EditingIndex::zero();
    for r in &recs {
        single.process(r);
    }
    let mut first = EditingIndex::zero();
    first.process(&recs[2]);
    let mut second = EditingIndex::zero();
    second.process(&recs[0]);
    second.process(&recs[1]);
    assert_eq!(first.combine(&second), single);
    assert_eq!(second.combine(&first), single);
    assert_eq!(combine_all(&vec![second, first, EditingIndex::zero()]), single);
    assert_eq!(single.mismatches.a, NucTotals::new(16, 0, 4, 0));
    assert_eq!(single.ratio(Nucleotide::A, Nucleotide::G), (400, 20));
    assert_eq!(single.ratio(Nucleotide::T, Nucleotide::C), (1100, 27));
    assert_eq!(single.mismatches.t, NucTotals::new(0, 11, 0, 16));
}

#[test]
fn stats_see_filtered_records() {
    let mut hooks = REATHooksEngine::new();
    hooks.add_stat(EditingIndex::zero());
    hooks.add_filter(ByMismatches::new(3, Frequency::new(1, 100), 5));
    let recs = vec![
        record(1, 2, "kept", Strand::Forward, (10, 3), (0, 0)),
        record(3, 4, "dropped", Strand::Forward, (10, 1), (0, 0)),
    ];
    let mut direct = EditingIndex::zero();
    for r in &recs {
        direct.process(r);
    }
    let kept = hooks.on_finish(recs);
    assert_eq!(kept.len(), 1);
    assert_eq!(kept[0].name, "kept");
    assert_eq!(hooks.stats(), vec![direct]);
}

#[test]
fn filter_by_mismatches_thresholds() {
    let f = ByMismatches::new(3, Frequency::new(1, 10), 20);
    assert!(f.is_ok(&record(1, 2, "x", Strand::Unknown, (17, 3), (0, 0))));
    // coverage 19 < 20
    assert!(!f.is_ok(&record(1, 2, "x", Strand::Unknown, (16, 3), (0, 0))));
    // 2 mismatches < 3
    assert!(!f.is_ok(&record(1, 2, "x", Strand::Unknown, (18, 2), (0, 0))));
    // 3 of 40 is below a tenth
    assert!(!f.is_ok(&record(1, 2, "x", Strand::Unknown, (37, 3), (0, 0))));
}

#[test]
fn output_order() {
    let items = vec![
        record(5, 9, "b", Strand::Unknown, (0, 0), (0, 0)),
        record(5, 9, "a", Strand::Unknown, (0, 0), (0, 0)),
        record(5, 9, "z", Strand::Forward, (0, 0), (0, 0)),
        record(5, 7, "q", Strand::Reverse, (0, 0), (0, 0)),
        record(1, 100, "r", Strand::Reverse, (0, 0), (0, 0)),
        record(5, 9, "y", Strand::Reverse, (0, 0), (0, 0)),
    ];
    let sorted = sort_for_output(items);
    let names: Vec<&str> = sorted.iter().map(|x| x.name.as_str()).collect();
    assert_eq!(names, vec!["r", "q", "z", "y", "a", "b"]);
    let (x, y) = (&sorted[4], &sorted[5]);
    assert_eq!(pos_then_strand_then_name(x, y), Ordering::Less);
    assert_eq!(pos_then_strand_then_name(y, x), Ordering::Greater);
    assert_eq!(pos_then_strand_then_name(x, x), Ordering::Equal);
}

#[test]
fn reference_prediction_policy() {
    let p = ByMostFrequent::new(5, Frequency::new(9, 10));
    // too little coverage: the reference stays
    assert_eq!(p.predict(Nucleotide::A, &NucCounts::new(0, 0, 4, 0)), PredNucleotide::Homozygous(Nucleotide::A));
    // alternate base above the threshold
    assert_eq!(p.predict(Nucleotide::A, &NucCounts::new(0, 0, 10, 0)), PredNucleotide::Homozygous(Nucleotide::G));
    // two bases together
    assert_eq!(
        p.predict(Nucleotide::A, &NucCounts::new(5, 0, 5, 0)),
        PredNucleotide::Heterozygous(Nucleotide::A, Nucleotide::G)
    );
    // noise everywhere
    assert_eq!(p.predict(Nucleotide::C, &NucCounts::new(3, 3, 3, 3)), PredNucleotide::Homozygous(Nucleotide::C));
    let calls = p.predict_seq(&vec![Nucleotide::T], &[NucCounts::zeros(), NucCounts::new(0, 9, 0, 0)]);
    assert_eq!(calls, vec![PredNucleotide::Homozygous(Nucleotide::T), PredNucleotide::Homozygous(Nucleotide::C)]);
}

#[test]
fn record_from_counts() {
    let calls = vec![
        PredNucleotide::Homozygous(Nucleotide::A),
        PredNucleotide::Homozygous(Nucleotide::Unknown),
        PredNucleotide::Heterozygous(Nucleotide::C, Nucleotide::T),
        PredNucleotide::Homozygous(Nucleotide::T),
    ];
    let counts = [NucCounts::new(3, 0, 1, 0), NucCounts::new(2, 0, 0, 0), NucCounts::new(0, 4, 0, 4), NucCounts::new(0, 2, 0, 5)];
    let rec = ROISummary::from_counts(Interval::new("chr2".to_string(), 10, 14), "n".to_string(), Strand::Unknown, &calls, &counts);
    assert_eq!(rec.data.coverage, 21);
    assert_eq!(rec.data.nucmasked, 1);
    assert_eq!(rec.data.heterozygous, 1);
    assert_eq!(rec.data.homozygous, NucTotals::new(1, 0, 0, 1));
    assert_eq!(rec.data.mismatches.a, NucTotals::new(3, 0, 1, 0));
    assert_eq!(rec.data.mismatches.t, NucTotals::new(0, 2, 0, 5));
    assert_eq!(rec.data.mismatches.n, NucTotals::new(2, 0, 0, 0));
    assert_eq!(rec.data.mismatches.mismatches(), 5);
    assert_eq!(rec.data.mismatches.coverage(), 13);
}
