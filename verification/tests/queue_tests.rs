//! Transcription queue: order, capacity, and the shutdown drain.

use flowstt::queue::{QueuedSegment, TranscriptionQueue};

fn segment_with_tag(tag: i32) -> QueuedSegment {
    QueuedSegment { samples: vec![tag; 4], sample_rate: 48000, channels: 1, wav_path: None }
}

#[test]
fn queue_is_first_in_first_out() {
    let mut queue = TranscriptionQueue::new();
    assert!(queue.enqueue(segment_with_tag(1)));
    assert!(queue.enqueue(segment_with_tag(2)));
    assert!(queue.enqueue(segment_with_tag(3)));
    assert_eq!(queue.queue_depth(), 3);
    assert_eq!(queue.dequeue().unwrap().samples[0], 1);
    assert_eq!(queue.dequeue().unwrap().samples[0], 2);
    assert_eq!(queue.dequeue().unwrap().samples[0], 3);
    assert!(queue.dequeue().is_none());
}

#[test]
fn queue_capacity_two_rejects_third() {
    let mut queue = TranscriptionQueue::with_capacity(2);
    assert!(queue.enqueue(segment_with_tag(1)));
    assert!(queue.enqueue(segment_with_tag(2)));
    assert!(!queue.enqueue(segment_with_tag(3)));
    assert_eq!(queue.queue_depth(), 2);
    // The consumer receives the first two segments in order.
    assert_eq!(queue.dequeue().unwrap().samples[0], 1);
    assert_eq!(queue.dequeue().unwrap().samples[0], 2);
    assert!(queue.dequeue().is_none());
}

#[test]
fn queue_closed_refuses_but_drains() {
    let mut queue = TranscriptionQueue::new();
    assert!(queue.enqueue(segment_with_tag(10)));
    assert!(queue.enqueue(segment_with_tag(20)));
    queue.close();
    // No new segment is accepted after the close.
    assert!(!queue.enqueue(segment_with_tag(30)));
    // What was queued before the close drains in enqueue order.
    let drained = queue.drain();
    assert_eq!(drained.len(), 2);
    assert_eq!(drained[0].samples[0], 10);
    assert_eq!(drained[1].samples[0], 20);
    assert_eq!(queue.queue_depth(), 0);
}

#[test]
fn queue_drain_empties_in_order() {
    let mut queue = TranscriptionQueue::with_capacity(5);
    for tag in 0..5 {
        assert!(queue.enqueue(segment_with_tag(tag)));
    }
    let drained = queue.drain();
    let tags: Vec<i32> = drained.iter().map(|s| s.samples[0]).collect();
    assert_eq!(tags, vec![0, 1, 2, 3, 4]);
}
