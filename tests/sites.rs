use reat::buffers::UnstrandedCountsBuffer;
use reat::counter::{NucCounter, ReadsFilter};
use reat::dna::{NucCounts, Nucleotide};
use reat::editing::StrandByAtoIEditing;
use reat::filters::ByMismatches;
use reat::freq::Frequency;
use reat::reads::{AlignedBlock, AlignedRead};
use reat::refpred::{ByMostFrequent, PredNucleotide};
use reat::sites::{LociRunCtx, LocusSummaryFilter, SiteSummary};
use reat::strand::Strand;
use reat::summary::Interval;

fn site_read(refstart: u64, seq: &str) -> AlignedRead {
    let blocks = vec![AlignedBlock { refstart, qstart: 0, len: seq.len() as u64 }];
    AlignedRead::new(0, 60, blocks, seq.as_bytes().to_vec(), vec![30; seq.len()])
}

#[test]
fn sites_of_an_interval() {
    let mut ctx = LociRunCtx::new(
        NucCounter::new(ReadsFilter::new(0, 0, 0, 0), UnstrandedCountsBuffer::new(8)),
        ByMostFrequent::new(1, Frequency::new(1, 2)),
        StrandByAtoIEditing::new(2, Frequency::new(1, 10)),
        ByMismatches::new(2, Frequency::new(1, 10), 5),
    );
    let reference = vec![Nucleotide::A, Nucleotide::T, Nucleotide::C, Nucleotide::G];
    let mut reads = Vec::new();
    for i in 0..6 {
        reads.push(site_read(50, if i < 2 { "GCCG" } else { "ATCG" }));
    }
    let sites = ctx.run(&Interval::new("chr5".to_string(), 50, 54), &reads, &reference);
    // locus 50: A with 2 G of 6, an A-to-G site on the forward strand
    // locus 51: T with 2 C of 6, a T-to-C site on the reverse strand
    // loci 52 and 53: no mismatch
    assert_eq!(sites.len(), 2);
    assert_eq!(sites[0].pos, 50);
    assert_eq!(sites[0].strand, Strand::Forward);
    assert_eq!(sites[0].prednuc, PredNucleotide::Homozygous(Nucleotide::A));
    assert_eq!(sites[0].sequenced, NucCounts::new(4, 0, 2, 0));
    assert_eq!(sites[1].pos, 51);
    assert_eq!(sites[1].strand, Strand::Reverse);
    assert_eq!(sites[1].contig, "chr5");
    assert_eq!(ctx.mapped(), 6);
}

#[test]
fn site_mismatches_and_filter() {
    let site = |prednuc, sequenced| SiteSummary {
        contig: "c".to_string(),
        pos: 1,
        strand: Strand::Unknown,
        prednuc,
        sequenced,
    };
    let cnt = NucCounts::new(5, 1, 3, 1);
    assert_eq!(site(PredNucleotide::Homozygous(Nucleotide::A), cnt).mismatches(), 5);
    assert_eq!(site(PredNucleotide::Homozygous(Nucleotide::Unknown), cnt).mismatches(), 10);
    assert_eq!(site(PredNucleotide::Heterozygous(Nucleotide::A, Nucleotide::G), cnt).mismatches(), 2);
    assert_eq!(site(PredNucleotide::Heterozygous(Nucleotide::A, Nucleotide::A), cnt).mismatches(), 5);
    let f = ByMismatches::new(3, Frequency::new(1, 4), 10);
    assert!(f.is_ok(&site(PredNucleotide::Homozygous(Nucleotide::A), cnt)));
    assert!(!f.is_ok(&site(PredNucleotide::Heterozygous(Nucleotide::A, Nucleotide::G), cnt)));
}
