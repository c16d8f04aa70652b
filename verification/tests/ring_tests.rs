//! Ring buffer wrap-around behavior.

use flowstt::ring::SegmentRingBuffer;

#[test]
fn ring_write_and_extract_across_seam() {
    let mut ring = SegmentRingBuffer::new(10);
    // Advance the write position to 7.
    ring.write(&vec![0, 0, 0, 0, 0, 0, 0]);
    assert_eq!(ring.write_position(), 7);
    // Write four samples; the last crosses the seam.
    ring.write(&vec![11, 22, 33, 44]);
    assert_eq!(ring.write_position(), 1);
    let segment = ring.extract_segment(7);
    assert_eq!(segment, vec![11, 22, 33, 44]);
}

#[test]
fn ring_extract_capacity_minus_one() {
    let mut ring = SegmentRingBuffer::new(8);
    ring.write(&vec![0, 0, 0]);
    let start = ring.write_position();
    assert_eq!(start, 3);
    // Seven samples: one less than the capacity, crossing the seam.
    let written: Vec<i32> = vec![1, 2, 3, 4, 5, 6, 7];
    ring.write(&written);
    let segment = ring.extract_segment(start);
    assert_eq!(segment, written);
    assert_eq!(ring.segment_length(start), 7);
}

#[test]
fn ring_extract_between_indices() {
    let mut ring = SegmentRingBuffer::new(6);
    ring.write(&vec![10, 20, 30, 40, 50]);
    let segment = ring.extract_segment_to(1, 4);
    assert_eq!(segment, vec![20, 30, 40]);
    // Wrapped slice: from index 4 around to index 1.
    let wrapped = ring.extract_segment_to(4, 1);
    assert_eq!(wrapped.len(), 3);
    assert_eq!(wrapped[0], 50);
}

#[test]
fn ring_index_from_lookback_clamps() {
    let mut ring = SegmentRingBuffer::new(10);
    ring.write(&vec![1, 2, 3, 4]);
    assert_eq!(ring.index_from_lookback(3), 1);
    assert_eq!(ring.index_from_lookback(6), 8);
    // A lookback spanning the whole ring clamps to the write position.
    assert_eq!(ring.index_from_lookback(10), 4);
    assert_eq!(ring.index_from_lookback(25), 4);
}

#[test]
fn ring_overflow_threshold() {
    let mut ring = SegmentRingBuffer::new(100);
    ring.write(&vec![5; 89]);
    assert!(!ring.is_approaching_overflow(0));
    ring.write(&vec![5; 1]);
    assert!(ring.is_approaching_overflow(0));
}
