use reat::dna::{reference_from_ascii, Nucleotide};
use reat::reads::{blocks_from_cigar, AlignedBlock, CigarKind, CigarOp};
use reat::run::ROIWorkload;

fn op(kind: CigarKind, len: u32) -> CigarOp {
    CigarOp { kind, len }
}

#[test]
fn cigar_blocks() {
    // 2S 3M 1I 2M 4N 2= 1D 1X 5H
    let cigar = vec![
        op(CigarKind::SoftClip, 2),
        op(CigarKind::Match, 3),
        op(CigarKind::Ins, 1),
        op(CigarKind::Match, 2),
        op(CigarKind::RefSkip, 4),
        op(CigarKind::Equal, 2),
        op(CigarKind::Del, 1),
        op(CigarKind::Diff, 1),
        op(CigarKind::HardClip, 5),
    ];
    let blocks = blocks_from_cigar(100, &cigar);
    assert_eq!(
        blocks,
        vec![
            AlignedBlock { refstart: 100, qstart: 2, len: 3 },
            AlignedBlock { refstart: 103, qstart: 6, len: 2 },
            AlignedBlock { refstart: 109, qstart: 8, len: 2 },
            AlignedBlock { refstart: 112, qstart: 10, len: 1 },
        ]
    );
    assert!(blocks_from_cigar(5, &vec![op(CigarKind::Match, 0), op(CigarKind::Pad, 3)]).is_empty());
}

#[test]
fn reference_symbols() {
    assert_eq!(
        reference_from_ascii(b"AcGtNn-"),
        vec![
            Nucleotide::A,
            Nucleotide::C,
            Nucleotide::G,
            Nucleotide::T,
            Nucleotide::Unknown,
            Nucleotide::Unknown,
            Nucleotide::Unknown
        ]
    );
}

#[test]
fn bed_fields() {
    let w = ROIWorkload::from_bed_fields("chr3", "10", "25", "Alu").unwrap();
    assert_eq!(w.interval.contig, "chr3");
    assert_eq!((w.interval.start, w.interval.end), (10, 25));
    assert_eq!(w.name, "Alu");
    assert_eq!(w.interval.len(), 15);
    assert!(ROIWorkload::from_bed_fields("chr3", "25", "10", "x").is_none());
    assert!(ROIWorkload::from_bed_fields("chr3", "x", "10", "x").is_none());
    assert!(ROIWorkload::from_bed_fields("chr3", "1", "18446744073709551616", "x").is_none());
    assert!(ROIWorkload::from_bed_fields("chr3", "7", "7", "").is_some());
}
