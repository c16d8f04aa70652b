//! Bounded FIFO queue of speech segments awaiting transcription.
//!
//! The queue is the hand-off point between the audio loop (the producer) and
//! the transcription worker (the consumer). The producer never blocks: a full
//! queue refuses the segment. After the queue is closed, no further segment is
//! accepted, but the segments already queued can still be drained in order.

use vstd::prelude::*;

verus! {

/// Default queue capacity in segments.
pub const DEFAULT_QUEUE_CAPACITY: usize = 8;

/// An audio segment queued for transcription. Enqueued segments are
/// immutable.
#[derive(Debug, Clone)]
pub struct QueuedSegment {
    /// The fixed-point samples of the segment, in capture order.
    pub samples: Vec<i32>,
    /// Sample rate of the capture.
    pub sample_rate: u32,
    /// Number of interleaved channels.
    pub channels: u16,
    /// Path of the saved audio file, when one was written.
    pub wav_path: Option<String>,
}

/// Bounded FIFO of segments: one producer, one consumer.
pub struct TranscriptionQueue {
    /// Queued segments; the front is the next to be transcribed.
    pub segments: Vec<QueuedSegment>,
    /// Maximum number of queued segments.
    pub capacity: usize,
    /// Whether the producer side has been closed for shutdown.
    pub closed: bool,
}

impl TranscriptionQueue {
    /// Structural invariant: the queue never exceeds its capacity.
    pub open spec fn wf(self) -> bool {
        &&& self.capacity >= 1
        &&& self.segments@.len() <= self.capacity
    }

    /// The queued segments in enqueue order.
    pub open spec fn view(self) -> Seq<QueuedSegment> {
        self.segments@
    }

    /// Create a queue with the default capacity.
    pub fn new() -> (r: Self)
        ensures
            r.wf(),
            r.view() == Seq::<QueuedSegment>::empty(),
            r.capacity == DEFAULT_QUEUE_CAPACITY,
            !r.closed,
    {
        Self::with_capacity(DEFAULT_QUEUE_CAPACITY)
    }

    /// Create a queue bounded by `capacity` segments.
    pub fn with_capacity(capacity: usize) -> (r: Self)
        requires
            capacity >= 1,
        ensures
            r.wf(),
            r.view() == Seq::<QueuedSegment>::empty(),
            r.capacity == capacity,
            !r.closed,
    {
        TranscriptionQueue { segments: Vec::new(), capacity, closed: false }
    }

    /// Number of segments waiting to be transcribed.
    pub fn queue_depth(&self) -> (r: usize)
        ensures
            r as int == self.view().len(),
    {
        self.segments.len()
    }

    /// Append a segment at the back of the queue. Returns `false`, leaving
    /// the queue unchanged, when the queue is full or closed; the segment is
    /// then dropped.
    pub fn enqueue(&mut self, segment: QueuedSegment) -> (accepted: bool)
        requires
            old(self).wf(),
        ensures
            final(self).wf(),
            final(self).capacity == old(self).capacity,
            final(self).closed == old(self).closed,
            accepted <==> (!old(self).closed && old(self).view().len() < old(self).capacity),
            accepted ==> final(self).view() == old(self).view().push(segment),
            !accepted ==> final(self).view() == old(self).view(),
    {
        if self.closed || self.segments.len() >= self.capacity {
            return false;
        }
        self.segments.push(segment);
        true
    }

    /// Take the segment at the front of the queue: the earliest one enqueued
    /// and not yet taken. The consumer sees segments in enqueue order.
    pub fn dequeue(&mut self) -> (r: Option<QueuedSegment>)
        requires
            old(self).wf(),
        ensures
            final(self).wf(),
            final(self).capacity == old(self).capacity,
            final(self).closed == old(self).closed,
            old(self).view().len() == 0 ==> r is None && final(self).view() == old(self).view(),
            old(self).view().len() > 0 ==> r == Some(old(self).view()[0]) && final(self).view()
                == old(self).view().skip(1),
    {
        if self.segments.len() == 0 {
            return None;
        }
        let seg = self.segments.remove(0);
        proof {
            assert(self.segments@ =~= old(self).segments@.skip(1));
        }
        Some(seg)
    }

    /// Close the producer side: later enqueues are refused, queued segments
    /// stay available for draining.
    pub fn close(&mut self)
        requires
            old(self).wf(),
        ensures
            final(self).wf(),
            final(self).capacity == old(self).capacity,
            final(self).closed,
            final(self).view() == old(self).view(),
    {
        self.closed = true;
    }

    /// Take every queued segment, in enqueue order, leaving the queue empty.
    /// This is the shutdown drain: everything accepted before the close is
    /// handed to the consumer exactly once, in the order it was enqueued.
    pub fn drain(&mut self) -> (r: Vec<QueuedSegment>)
        requires
            old(self).wf(),
        ensures
            final(self).wf(),
            final(self).capacity == old(self).capacity,
            final(self).closed == old(self).closed,
            r@ == old(self).view(),
            final(self).view() == Seq::<QueuedSegment>::empty(),
    {
        let mut out: Vec<QueuedSegment> = Vec::new();
        loop
            invariant
                self.wf(),
                self.capacity == old(self).capacity,
                self.closed == old(self).closed,
                out@ + self.view() == old(self).view(),
            ensures
                self.wf(),
                self.capacity == old(self).capacity,
                self.closed == old(self).closed,
                out@ == old(self).view(),
                self.view() == Seq::<QueuedSegment>::empty(),
            decreases self.view().len(),
        {
            match self.dequeue() {
                Some(seg) => {
                    out.push(seg);
                    proof {
                        assert(out@ + self.view() =~= old(self).view());
                    }
                },
                None => {
                    proof {
                        assert(out@ + self.view() =~= out@);
                        assert(out@ == old(self).view());
                    }
                    break ;
                },
            }
        }
        out
    }
}

/// The queue's contents after a segment is offered to it: appended when one
/// is present and the queue is open and below capacity, unchanged
/// otherwise. This is exactly what [`TranscriptionQueue::enqueue`] does
/// with the result of a cut.
pub open spec fn spec_offer(
    view: Seq<QueuedSegment>,
    capacity: int,
    closed: bool,
    segment: Option<QueuedSegment>,
) -> Seq<QueuedSegment> {
    match segment {
        Some(s) => if !closed && view.len() < capacity {
            view.push(s)
        } else {
            view
        },
        None => view,
    }
}

} // verus!
