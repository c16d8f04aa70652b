//! Continuous audio store with wrap-around and segment extraction.

use vstd::prelude::*;

use crate::sample::valid_frame;

verus! {

/// Ring position following `p`, wrapping at `cap`.
pub open spec fn ring_next(p: int, cap: int) -> int {
    if p + 1 == cap {
        0
    } else {
        p + 1
    }
}

/// Ring position `n` steps after `p`.
pub open spec fn ring_advance(p: int, n: int, cap: int) -> int
    decreases n,
{
    if n <= 0 {
        p
    } else {
        ring_advance(ring_next(p, cap), (n - 1) as int, cap)
    }
}

/// Ring index `k` samples after `start`; meaningful for `start < cap` and
/// `k <= cap`.
pub open spec fn ring_index(start: int, k: int, cap: int) -> int {
    if start + k < cap {
        start + k
    } else {
        start + k - cap
    }
}

/// Forward distance from `start` to `end` around the ring.
pub open spec fn ring_distance(start: int, end: int, cap: int) -> int {
    if end >= start {
        end - start
    } else {
        cap - start + end
    }
}

/// Ring contents after writing `s` at position `pos`, one sample at a time.
pub open spec fn ring_written(buf: Seq<i32>, pos: int, s: Seq<i32>) -> Seq<i32>
    decreases s.len(),
{
    if s.len() == 0 {
        buf
    } else {
        ring_written(buf.update(pos, s[0]), ring_next(pos, buf.len() as int), s.skip(1))
    }
}

/// The samples stored between `start` (inclusive) and `end` (exclusive),
/// in write order, splicing across the seam.
pub open spec fn ring_slice(buf: Seq<i32>, start: int, end: int) -> Seq<i32> {
    Seq::new(
        ring_distance(start, end, buf.len() as int) as nat,
        |k: int| buf[ring_index(start, k, buf.len() as int)],
    )
}

/// A ring buffer for continuous audio capture.
///
/// Samples are appended at a monotonically advancing write position, wrapping
/// at the capacity; segments are identified by index pairs and extracted by
/// copying, splicing across the seam where necessary.
pub struct SegmentRingBuffer {
    /// The underlying storage; its length is the capacity.
    pub buffer: Vec<i32>,
    /// Current write position.
    pub write_pos: usize,
    /// Total samples written, saturating.
    pub total_written: u64,
}

impl SegmentRingBuffer {
    /// Structural invariant of the ring.
    pub open spec fn wf(self) -> bool {
        &&& 1 <= self.buffer@.len()
        &&& self.buffer@.len() <= usize::MAX as int
        &&& (self.write_pos as int) < self.buffer@.len()
        &&& valid_frame(self.buffer@)
    }

    pub open spec fn spec_capacity(self) -> int {
        self.buffer@.len() as int
    }

    pub open spec fn spec_write_pos(self) -> int {
        self.write_pos as int
    }

    pub open spec fn contents(self) -> Seq<i32> {
        self.buffer@
    }

    /// Create a ring of the given capacity, filled with silence.
    pub fn new(capacity: usize) -> (r: Self)
        requires
            capacity >= 1,
        ensures
            r.wf(),
            r.spec_capacity() == capacity as int,
            r.spec_write_pos() == 0,
            r.total_written@ == 0,
            forall|i: int| 0 <= i < capacity as int ==> r.contents()[i] == 0,
    {
        let mut buffer: Vec<i32> = Vec::new();
        let mut i: usize = 0;
        while i < capacity
            invariant
                i <= capacity,
                buffer@.len() == i as int,
                forall|k: int| 0 <= k < i as int ==> buffer@[k] == 0,
            decreases capacity - i,
        {
            buffer.push(0);
            i += 1;
        }
        SegmentRingBuffer { buffer, write_pos: 0, total_written: 0 }
    }

    /// Create a ring with the default capacity: thirty seconds of stereo
    /// audio at 48 kHz.
    pub fn with_default_capacity() -> (r: Self)
        ensures
            r.wf(),
            r.spec_capacity() == crate::RING_BUFFER_CAPACITY as int,
            r.spec_write_pos() == 0,
            r.total_written@ == 0,
    {
        Self::new(crate::RING_BUFFER_CAPACITY)
    }

    /// Spec view of the saturating total of samples written.
    pub open spec fn spec_total_written(self) -> int {
        self.total_written as int
    }

    /// Write samples, advancing the write position with wrap-around.
    pub fn write(&mut self, samples: &Vec<i32>)
        requires
            old(self).wf(),
            valid_frame(samples@),
        ensures
            final(self).wf(),
            final(self).spec_capacity() == old(self).spec_capacity(),
            final(self).contents() == ring_written(
                old(self).contents(),
                old(self).spec_write_pos(),
                samples@,
            ),
            final(self).spec_write_pos() == ring_advance(
                old(self).spec_write_pos(),
                samples@.len() as int,
                old(self).spec_capacity(),
            ),
            final(self).spec_total_written() == if old(self).spec_total_written() + samples@.len()
                <= u64::MAX as int {
                old(self).spec_total_written() + samples@.len()
            } else {
                u64::MAX as int
            },
    {
        let ghost buf0 = self.buffer@;
        let ghost pos0 = self.write_pos as int;
        let ghost cap = self.buffer@.len() as int;
        let mut i: usize = 0;
        proof {
            assert(samples@.skip(0) =~= samples@);
        }
        while i < samples.len()
            invariant
                self.wf(),
                valid_frame(samples@),
                self.spec_capacity() == cap,
                i <= samples@.len(),
                ring_written(self.buffer@, self.write_pos as int, samples@.skip(i as int))
                    == ring_written(buf0, pos0, samples@),
                self.write_pos as int == ring_advance(pos0, i as int, cap),
                self.total_written == old(self).total_written,
            decreases samples@.len() - i,
        {
            proof {
                lemma_ring_advance_snoc(pos0, i as int, cap);
                assert(samples@.skip(i as int)[0] == samples@[i as int]);
                assert(samples@.skip(i as int).skip(1) =~= samples@.skip(i as int + 1));
            }
            let pos = self.write_pos;
            self.buffer.set(pos, samples[i]);
            self.write_pos = if pos + 1 == self.buffer.len() {
                0
            } else {
                pos + 1
            };
            i += 1;
        }
        proof {
            assert(samples@.skip(samples@.len() as int) =~= Seq::<i32>::empty());
            assert(ring_written(self.buffer@, self.write_pos as int, Seq::<i32>::empty())
                == self.buffer@);
        }
        let len64 = samples.len() as u64;
        self.total_written = if u64::MAX - self.total_written >= len64 {
            self.total_written + len64
        } else {
            u64::MAX
        };
    }

    /// Current write position.
    pub fn write_position(&self) -> (r: usize)
        ensures
            r as int == self.spec_write_pos(),
    {
        self.write_pos
    }

    /// Capacity of the ring.
    pub fn capacity(&self) -> (r: usize)
        ensures
            r as int == self.spec_capacity(),
    {
        self.buffer.len()
    }

    /// Forward distance from `start_idx` to the write position.
    pub fn segment_length(&self, start_idx: usize) -> (r: usize)
        requires
            self.wf(),
            (start_idx as int) < self.spec_capacity(),
        ensures
            r as int == ring_distance(
                start_idx as int,
                self.spec_write_pos(),
                self.spec_capacity(),
            ),
    {
        if self.write_pos >= start_idx {
            self.write_pos - start_idx
        } else {
            (self.buffer.len() - start_idx) + self.write_pos
        }
    }

    /// Ring index `lookback_samples` back from the write position; clamps to
    /// the write position itself when the span exceeds the capacity.
    pub fn index_from_lookback(&self, lookback_samples: usize) -> (r: usize)
        requires
            self.wf(),
        ensures
            (r as int) < self.spec_capacity(),
            lookback_samples as int >= self.spec_capacity() ==> r as int
                == self.spec_write_pos(),
            (lookback_samples as int) < self.spec_capacity() ==> ring_distance(
                r as int,
                self.spec_write_pos(),
                self.spec_capacity(),
            ) == lookback_samples as int,
    {
        if lookback_samples >= self.buffer.len() {
            self.write_pos
        } else if lookback_samples <= self.write_pos {
            self.write_pos - lookback_samples
        } else {
            self.buffer.len() - (lookback_samples - self.write_pos)
        }
    }

    /// Whether the segment beginning at `start_idx` has reached ninety
    /// percent of the capacity.
    pub fn is_approaching_overflow(&self, start_idx: usize) -> (r: bool)
        requires
            self.wf(),
            (start_idx as int) < self.spec_capacity(),
        ensures
            r == (ring_distance(start_idx as int, self.spec_write_pos(), self.spec_capacity())
                >= self.spec_capacity() * 90 / 100),
    {
        let segment_len = self.segment_length(start_idx);
        let threshold = ((self.buffer.len() as u128 * 90) / 100) as usize;
        proof {
            assert(self.spec_capacity() * 90 / 100 <= self.spec_capacity()) by (nonlinear_arith)
                requires
                    self.spec_capacity() >= 1,
            ;
        }
        segment_len >= threshold
    }

    /// Copy out the samples from `start_idx` to the write position.
    pub fn extract_segment(&self, start_idx: usize) -> (r: Vec<i32>)
        requires
            self.wf(),
            (start_idx as int) < self.spec_capacity(),
        ensures
            r@ == ring_slice(self.contents(), start_idx as int, self.spec_write_pos()),
    {
        self.extract_segment_to(start_idx, self.write_pos)
    }

    /// Copy out the samples from `start_idx` to `end_idx`, splicing across
    /// the seam if needed.
    pub fn extract_segment_to(&self, start_idx: usize, end_idx: usize) -> (r: Vec<i32>)
        requires
            self.wf(),
            (start_idx as int) < self.spec_capacity(),
            (end_idx as int) < self.spec_capacity(),
        ensures
            r@ == ring_slice(self.contents(), start_idx as int, end_idx as int),
    {
        let cap = self.buffer.len();
        let segment_len: usize = if end_idx >= start_idx {
            end_idx - start_idx
        } else {
            (cap - start_idx) + end_idx
        };
        let mut result: Vec<i32> = Vec::new();
        let mut k: usize = 0;
        let mut idx: usize = start_idx;
        while k < segment_len
            invariant
                self.wf(),
                (start_idx as int) < self.spec_capacity(),
                cap as int == self.spec_capacity(),
                segment_len as int == ring_distance(
                    start_idx as int,
                    end_idx as int,
                    cap as int,
                ),
                (segment_len as int) < cap as int || end_idx == start_idx,
                k <= segment_len,
                idx as int == ring_index(start_idx as int, k as int, cap as int),
                (idx as int) < cap as int,
                result@.len() == k as int,
                forall|j: int| 0 <= j < k as int ==> result@[j] == self.contents()[ring_index(
                    start_idx as int,
                    j,
                    cap as int,
                )],
            decreases segment_len - k,
        {
            result.push(self.buffer[idx]);
            idx = if idx + 1 == cap {
                0
            } else {
                idx + 1
            };
            k += 1;
        }
        proof {
            assert(result@ =~= ring_slice(self.contents(), start_idx as int, end_idx as int));
        }
        result
    }

    /// Reset the write position and the running total; the stored samples are
    /// left in place.
    pub fn clear(&mut self)
        requires
            old(self).wf(),
        ensures
            final(self).wf(),
            final(self).spec_capacity() == old(self).spec_capacity(),
            final(self).spec_write_pos() == 0,
            final(self).spec_total_written() == 0,
            final(self).contents() == old(self).contents(),
    {
        self.write_pos = 0;
        self.total_written = 0;
    }
}

/// Advancing one more step from the far end.
proof fn lemma_ring_advance_snoc(p: int, n: int, cap: int)
    requires
        0 <= n,
    ensures
        ring_advance(p, n + 1, cap) == ring_next(ring_advance(p, n, cap), cap),
    decreases n,
{
    assert(ring_advance(p, n + 1, cap) == ring_advance(ring_next(p, cap), n, cap));
    if n == 0 {
        assert(ring_advance(ring_next(p, cap), 0, cap) == ring_next(p, cap));
    } else {
        lemma_ring_advance_snoc(ring_next(p, cap), (n - 1) as int, cap);
    }
}

proof fn lemma_ring_advance_step(p: int, n: int, cap: int)
    requires
        0 <= n,
    ensures
        ring_advance(ring_next(p, cap), n, cap) == ring_advance(p, n + 1, cap),
    decreases n,
{
    if n > 0 {
        lemma_ring_advance_step(ring_next(p, cap), (n - 1) as int, cap);
    }
}

/// Writing a single sample extends the slice that ends at the write position
/// by that sample, as long as the slice stays shorter than the ring.
proof fn lemma_ring_slice_push(buf: Seq<i32>, start: int, pos: int, x: i32)
    requires
        0 <= start < buf.len(),
        0 <= pos < buf.len(),
        ring_distance(start, pos, buf.len() as int) + 1 < buf.len(),
    ensures
        ring_slice(buf.update(pos, x), start, ring_next(pos, buf.len() as int)) == ring_slice(
            buf,
            start,
            pos,
        ).push(x),
{
    let cap = buf.len() as int;
    let d = ring_distance(start, pos, cap);
    let next = ring_next(pos, cap);
    assert(ring_distance(start, next, cap) == d + 1);
    assert(ring_index(start, d, cap) == pos);
    assert forall|j: int| 0 <= j < d implies ring_index(start, j, cap) != pos by {}
    assert(ring_slice(buf.update(pos, x), start, next) =~= ring_slice(buf, start, pos).push(x));
}

/// Writing `s` into the ring appends `s` to the segment that ends at the
/// write position, as long as the combined span stays shorter than the ring.
/// Together with the empty slice at the write position itself, this is the
/// wrap-around correctness law: starting at the current write position,
/// any writes of combined length below the capacity are read back exactly,
/// in write order, across the seam.
pub proof fn lemma_ring_write_extends_slice(buf: Seq<i32>, start: int, pos: int, s: Seq<i32>)
    requires
        0 <= start < buf.len(),
        0 <= pos < buf.len(),
        ring_distance(start, pos, buf.len() as int) + s.len() < buf.len(),
    ensures
        ring_slice(
            ring_written(buf, pos, s),
            start,
            ring_advance(pos, s.len() as int, buf.len() as int),
        ) == ring_slice(buf, start, pos) + s,
    decreases s.len(),
{
    let cap = buf.len() as int;
    if s.len() == 0 {
        assert(ring_slice(buf, start, pos) + s =~= ring_slice(buf, start, pos));
    } else {
        let buf1 = buf.update(pos, s[0]);
        let pos1 = ring_next(pos, cap);
        lemma_ring_slice_push(buf, start, pos, s[0]);
        lemma_ring_write_extends_slice(buf1, start, pos1, s.skip(1));
        lemma_ring_advance_step(pos, s.len() as int - 1, cap);
        assert(ring_slice(buf1, start, pos1) + s.skip(1) =~= ring_slice(buf, start, pos) + s);
    }
}

/// A slice of a ring that holds only full-scale samples is itself a
/// full-scale frame.
pub proof fn lemma_ring_slice_valid(buf: Seq<i32>, start: int, end: int)
    requires
        valid_frame(buf),
        0 <= start < buf.len(),
        0 <= end < buf.len(),
    ensures
        valid_frame(ring_slice(buf, start, end)),
{
    let cap = buf.len() as int;
    let s = ring_slice(buf, start, end);
    assert forall|k: int| 0 <= k < s.len() implies crate::sample::valid_sample(s[k]) by {
        assert(0 <= ring_index(start, k, cap) < cap);
    }
}

/// The slice from the write position to itself is empty.
pub proof fn lemma_ring_slice_empty(buf: Seq<i32>, pos: int)
    requires
        0 <= pos < buf.len(),
    ensures
        ring_slice(buf, pos, pos) == Seq::<i32>::empty(),
{
    assert(ring_slice(buf, pos, pos) =~= Seq::<i32>::empty());
}

/// Cutting a span at an interior position splits it exactly: the slice up
/// to the cut followed by the slice from the cut is the whole slice. This
/// is why successive segment cuts partition the recorded audio — each cut
/// ends where the next segment begins.
pub proof fn lemma_ring_slice_concat(buf: Seq<i32>, start: int, mid: int, end: int)
    requires
        0 <= start < buf.len(),
        0 <= mid < buf.len(),
        0 <= end < buf.len(),
        ring_distance(start, mid, buf.len() as int) + ring_distance(
            mid,
            end,
            buf.len() as int,
        ) == ring_distance(start, end, buf.len() as int),
    ensures
        ring_slice(buf, start, mid) + ring_slice(buf, mid, end) == ring_slice(buf, start, end),
{
    let cap = buf.len() as int;
    let d1 = ring_distance(start, mid, cap);
    assert(mid == ring_index(start, d1, cap));
    assert forall|k: int|
        d1 <= k < ring_distance(start, end, cap) implies ring_index(start, k, cap)
        == ring_index(mid, k - d1, cap) by {}
    assert(ring_slice(buf, start, mid) + ring_slice(buf, mid, end) =~= ring_slice(
        buf,
        start,
        end,
    ));
}

} // verus!
