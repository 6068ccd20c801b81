use reat::dna::{NucCounts, Nucleotide};
use reat::editing::StrandByAtoIEditing;
use reat::freq::Frequency;
use reat::mismatches::ROINucCounts;
use reat::refpred::PredNucleotide;
use reat::strand::Strand;

#[test]
fn roi_strand_by_editing() {
    let dummy = StrandByAtoIEditing::new(8, Frequency::new(5, 100));
    for (result, matches, mismatches) in
        [(Strand::Forward, 8, 8), (Strand::Unknown, 100, 4), (Strand::Unknown, 1, 7), (Strand::Forward, 10, 10)]
    {
        let mut mm = ROINucCounts::zeros();
        mm.t.t = matches;
        mm.t.c = mismatches;
        assert!(result.neg().same(&dummy.roipred(&mm)));

        mm = ROINucCounts::zeros();
        mm.a.a = matches;
        mm.a.g = mismatches;
        assert!(result.same(&dummy.roipred(&mm)));
    }

    for (result, matches, a2g, t2c) in
        [(Strand::Unknown, 10, 10, 10), (Strand::Reverse, 10, 10, 11), (Strand::Forward, 10, 11, 10)]
    {
        let mut mm = ROINucCounts::zeros();
        mm.a.a = matches;
        mm.a.g = a2g;

        mm.t.t = matches;
        mm.t.c = t2c;

        assert!(result.same(&dummy.roipred(&mm)));
    }
}

#[test]
fn nucpred() {
    let dummy = StrandByAtoIEditing::new(10, Frequency::new(1, 10));

    // Unknown strand
    for (sequenced, refnuc) in [
        (NucCounts::new(0, 0, 0, 123), Nucleotide::C),
        (NucCounts::new(0, 0, 234, 0), Nucleotide::Unknown),
        (NucCounts::new(32, 0, 0, 0), Nucleotide::G),
        (NucCounts::new(170, 0, 170, 0), Nucleotide::C),
        (NucCounts::new(10, 0, 9, 0), Nucleotide::A),
        (NucCounts::new(0, 200, 0, 200), Nucleotide::G),
    ] {
        assert!(dummy.sitepred(&sequenced, refnuc).is_unknown());
    }

    let dummy = StrandByAtoIEditing::new(8, Frequency::new(5, 100));
    // Inferred strand
    for (matches, mismatches, strand) in
        [(8, 8, Strand::Forward), (100, 4, Strand::Unknown), (1, 7, Strand::Unknown), (10, 10, Strand::Forward)]
    {
        let cnts = NucCounts::new(matches, 0, mismatches, 0);
        assert!(dummy.sitepred(&cnts, Nucleotide::A).same(&strand));

        let cnts = NucCounts::new(0, mismatches, 0, matches);
        assert!(dummy.sitepred(&cnts, Nucleotide::T).same(&strand.neg()));
    }
}

#[test]
fn editing_call_thresholds() {
    let p = StrandByAtoIEditing::new(8, Frequency::new(5, 100));
    let mut mm = ROINucCounts::zeros();
    mm.a.a = 8;
    mm.a.g = 8;
    assert_eq!(p.roipred(&mm), Strand::Forward);

    let mut mm = ROINucCounts::zeros();
    mm.t.t = 8;
    mm.t.c = 8;
    assert_eq!(p.roipred(&mm), Strand::Reverse);

    let mut mm = ROINucCounts::zeros();
    mm.a.a = 8;
    mm.a.g = 8;
    mm.t.t = 8;
    mm.t.c = 8;
    assert_eq!(p.roipred(&mm), Strand::Unknown);

    // below the frequency threshold: 8 of 200 is 4%
    let mut mm = ROINucCounts::zeros();
    mm.a.a = 192;
    mm.a.g = 8;
    assert_eq!(p.roipred(&mm), Strand::Unknown);
    // exactly at it: 10 of 200 is 5%
    mm.a.a = 190;
    mm.a.g = 10;
    assert_eq!(p.roipred(&mm), Strand::Forward);
    // no coverage at all
    assert_eq!(p.roipred(&ROINucCounts::zeros()), Strand::Unknown);
}

#[test]
fn heterozygous_site_strand() {
    let p = StrandByAtoIEditing::new(2, Frequency::new(1, 10));
    let cnts = NucCounts::new(10, 0, 5, 0);
    // the A allele shows editing, the C allele gives no strand
    assert_eq!(p.site_strand(PredNucleotide::Heterozygous(Nucleotide::A, Nucleotide::C), &cnts), Strand::Forward);
    assert_eq!(p.site_strand(PredNucleotide::Heterozygous(Nucleotide::C, Nucleotide::A), &cnts), Strand::Forward);
    // the alleles disagree
    let cnts = NucCounts::new(10, 5, 5, 10);
    assert_eq!(p.site_strand(PredNucleotide::Heterozygous(Nucleotide::A, Nucleotide::T), &cnts), Strand::Unknown);
    // both alleles agree
    let cnts = NucCounts::new(10, 0, 5, 0);
    assert_eq!(p.site_strand(PredNucleotide::Heterozygous(Nucleotide::A, Nucleotide::A), &cnts), Strand::Forward);
    assert_eq!(p.site_strand(PredNucleotide::Homozygous(Nucleotide::G), &cnts), Strand::Unknown);
}
