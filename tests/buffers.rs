use std::ptr;

use reat::buffers::{CountsBuffer, StrandedCountsBuffer, UnstrandedCountsBuffer};
use reat::dna::NucCounts;
use reat::reads::{AlignedRead, StrandSpecificExperimentDesign};

fn dummy(reserve: u32) -> UnstrandedCountsBuffer {
    UnstrandedCountsBuffer::new(reserve)
}

fn flagged_read(flags: u16) -> AlignedRead {
    AlignedRead::new(flags, 60, vec![], vec![], vec![])
}

#[test]
fn unstrandedbuf_reset() {
    let mut dummy = dummy(10);
    assert_eq!(dummy.len(), 0);
    for x in [20, 10, 5] {
        dummy.reset(x);
        assert_eq!(dummy.len(), x);
        // previous changes must be cleaned
        assert!(dummy.buffer.iter().all(|x| x.coverage() == 0), "{:?}", dummy.buffer);
        // new dummy changes
        dummy.buffer[0].t = 100;
    }
}

#[test]
fn unstrandedbuf_buffer_for() {
    let mut dummy = dummy(2);
    let (forward, reverse) = (flagged_read(0), flagged_read(0x10));
    assert!(ptr::eq(dummy.buffer_for(&forward), dummy.buffer_for(&reverse)));
}

#[test]
fn unstrandedbuf_content() {
    let mut dummy = dummy(10);
    dummy.reset(10);
    dummy.buffer[0].a = 10;

    let content = dummy.content();
    assert!(content.forward.is_none() && content.reverse.is_none());
    assert!(content.unstranded.is_some() && content.unstranded.unwrap().len() == 10);
}

#[test]
fn reset_between_lengths_leaves_no_tally() {
    let mut buf = StrandedCountsBuffer::new(StrandSpecificExperimentDesign::Same, 4);
    buf.reset(20);
    for i in 0..20 {
        buf.forward[i] = NucCounts::new(1, 2, 3, 4);
        buf.reverse[i] = NucCounts::new(5, 6, 7, 8);
    }
    buf.reset(7);
    assert_eq!(buf.len(), 7);
    assert_eq!(buf.forward.len(), 7);
    assert_eq!(buf.reverse.len(), 7);
    assert!(buf.forward.iter().chain(buf.reverse.iter()).all(|x| *x == NucCounts::zeros()));
    let content = buf.content();
    assert_eq!(content.total_counts(), 14);
    assert_eq!(content.capacity(), 14);
    assert!(content.unstranded.is_none());
}

#[test]
fn stranded_routing_by_design() {
    let mut buf = StrandedCountsBuffer::new(StrandSpecificExperimentDesign::Same, 4);
    buf.reset(3);
    let (fwd1, fwd2, rev) = (flagged_read(0), flagged_read(0x40), flagged_read(0x10));
    assert!(ptr::eq(buf.buffer_for(&fwd1), buf.buffer_for(&fwd2)));
    assert!(!ptr::eq(buf.buffer_for(&fwd1), buf.buffer_for(&rev)));
    buf.buffer_for(&rev)[1].g = 3;
    assert_eq!(buf.reverse[1].g, 3);
    assert!(buf.forward.iter().all(|x| *x == NucCounts::zeros()));

    let mut flipped = StrandedCountsBuffer::new(StrandSpecificExperimentDesign::Flip, 4);
    flipped.reset(3);
    flipped.buffer_for(&fwd1)[0].a = 1;
    assert_eq!(flipped.reverse[0].a, 1);

    // second mates go against the first in the paired designs
    let mut paired = StrandedCountsBuffer::new(StrandSpecificExperimentDesign::Same1Flip2, 4);
    paired.reset(3);
    paired.buffer_for(&flagged_read(0x80))[2].c = 2;
    assert_eq!(paired.reverse[2].c, 2);
    paired.buffer_for(&flagged_read(0x80 | 0x10))[2].c = 5;
    assert_eq!(paired.forward[2].c, 5);
}
