//! Continuous-recording segmentation: the transcribe state machine.
//!
//! Driven by the audio loop with raw frames and speech events, this state
//! machine writes every frame into the segment ring, tracks the bounds of the
//! current speech segment, and decides when to cut: at speech end, at a word
//! break once the segment has outgrown its maximum duration, after a grace
//! period when no word break arrives, and at the ring's overflow threshold.

use vstd::prelude::*;

use crate::queue::QueuedSegment;
use crate::ring::{
    lemma_ring_slice_valid, ring_advance, ring_distance, ring_slice, ring_written,
    SegmentRingBuffer,
};
use crate::features::{lemma_sum_sq_nonneg, spec_sum_sq};
use crate::sample::valid_frame;

verus! {

/// Maximum segment duration before a word break is sought, in milliseconds.
pub const MAX_SEGMENT_DURATION_MS: u64 = 4000;

/// Grace period after the duration threshold before a cut is forced, in
/// milliseconds.
pub const WORD_BREAK_GRACE_MS: u64 = 750;

/// Minimum duration a segment must have to be queued, in milliseconds.
pub const MIN_SEGMENT_DURATION_MS: u64 = 500;

/// Squared fixed-point RMS floor: a segment whose mean squared sample value
/// is below one ten-thousandth of full scale squared (an RMS amplitude of
/// 0.01) is considered blank. `10000 * sum_sq < len * RMS_FLOOR_SCALE`
/// expresses that comparison exactly over fixed-point samples.
pub const RMS_FLOOR_SCALE: u64 = 1073741824;

/// Duration in milliseconds of `n` samples at `rate`.
pub open spec fn spec_duration_ms(n: int, rate: int) -> int
    recommends
        rate >= 1,
{
    n * 1000 / rate
}

/// Sample count of `ms` milliseconds at `rate`.
pub open spec fn spec_ms_to_samples(ms: int, rate: int) -> int {
    ms * rate / 1000
}

/// Saturating addition within `u64`.
pub open spec fn spec_sat_add_u64(a: int, b: int) -> int {
    if a + b <= u64::MAX as int {
        a + b
    } else {
        u64::MAX as int
    }
}

/// Whether a segment has enough content to be worth transcribing: it must
/// not be empty, must last at least [`MIN_SEGMENT_DURATION_MS`], and its RMS
/// amplitude must reach the blank-audio floor.
pub open spec fn spec_segment_valid(s: Seq<i32>, rate: int) -> bool {
    &&& s.len() > 0
    &&& spec_duration_ms(s.len() as int, rate) >= MIN_SEGMENT_DURATION_MS as int
    &&& 10000 * spec_sum_sq(s) >= s.len() * RMS_FLOOR_SCALE as int
}

/// State for automatic transcription: the ring buffer, the bounds of the
/// current speech segment, and the word-break search.
pub struct TranscribeState {
    /// Ring buffer for continuous audio capture.
    pub ring_buffer: SegmentRingBuffer,
    /// Whether transcribe mode is active.
    pub is_active: bool,
    /// Whether a speech segment is currently open.
    pub in_speech: bool,
    /// Ring index where the current speech segment started.
    pub segment_start_idx: usize,
    /// Sample rate of the capture.
    pub sample_rate: u32,
    /// Number of interleaved channels.
    pub channels: u16,
    /// Samples of the current segment since speech was confirmed, not
    /// counting lookback; saturating.
    pub segment_sample_count: u64,
    /// Whether the duration threshold was exceeded and a word break is
    /// sought.
    pub seeking_word_break: bool,
    /// Value of `segment_sample_count` when the word-break search began.
    pub word_break_seek_start_samples: u64,
    /// Lookback samples included at the start of the current segment.
    pub lookback_sample_count: usize,
}

impl TranscribeState {
    /// Structural invariant.
    pub open spec fn wf(self) -> bool {
        &&& self.ring_buffer.wf()
        &&& (self.segment_start_idx as int) < self.ring_buffer.spec_capacity()
        &&& self.sample_rate >= 1000
        &&& (self.seeking_word_break ==> self.in_speech)
        &&& (self.seeking_word_break ==> self.word_break_seek_start_samples
            <= self.segment_sample_count)
    }

    /// Create an inactive transcribe state with the default ring capacity,
    /// at 48 kHz stereo.
    pub fn new() -> (r: Self)
        ensures
            r.wf(),
            !r.is_active,
            !r.in_speech,
            r.sample_rate == 48000u32,
            r.channels == 2u16,
            r.ring_buffer.spec_capacity() == crate::RING_BUFFER_CAPACITY as int,
    {
        TranscribeState {
            ring_buffer: SegmentRingBuffer::with_default_capacity(),
            is_active: false,
            in_speech: false,
            segment_start_idx: 0,
            sample_rate: 48000,
            channels: 2,
            segment_sample_count: 0,
            seeking_word_break: false,
            word_break_seek_start_samples: 0,
            lookback_sample_count: 0,
        }
    }

    /// Initialize for capture with the given format; resets the ring and all
    /// segment tracking.
    pub fn init_for_capture(&mut self, sample_rate: u32, channels: u16)
        requires
            old(self).wf(),
            sample_rate >= 1000,
        ensures
            final(self).wf(),
            final(self).sample_rate == sample_rate,
            final(self).channels == channels,
            final(self).is_active == old(self).is_active,
            !final(self).in_speech,
            !final(self).seeking_word_break,
            final(self).segment_start_idx == 0,
            final(self).segment_sample_count == 0,
            final(self).lookback_sample_count == 0,
            final(self).ring_buffer.spec_write_pos() == 0,
            final(self).ring_buffer.spec_capacity() == old(self).ring_buffer.spec_capacity(),
    {
        self.sample_rate = sample_rate;
        self.channels = channels;
        self.ring_buffer.clear();
        self.in_speech = false;
        self.segment_start_idx = 0;
        self.segment_sample_count = 0;
        self.seeking_word_break = false;
        self.word_break_seek_start_samples = 0;
        self.lookback_sample_count = 0;
    }

    /// Activate transcribe mode.
    pub fn activate(&mut self)
        requires
            old(self).wf(),
        ensures
            final(self).wf(),
            final(self).is_active,
            !final(self).in_speech,
            !final(self).seeking_word_break,
            final(self).segment_start_idx == 0,
            final(self).segment_sample_count == 0,
            final(self).lookback_sample_count == 0,
            final(self).sample_rate == old(self).sample_rate,
            final(self).channels == old(self).channels,
            final(self).ring_buffer == old(self).ring_buffer,
    {
        self.is_active = true;
        self.in_speech = false;
        self.segment_start_idx = 0;
        self.segment_sample_count = 0;
        self.seeking_word_break = false;
        self.word_break_seek_start_samples = 0;
        self.lookback_sample_count = 0;
    }

    /// Deactivate transcribe mode.
    pub fn deactivate(&mut self)
        requires
            old(self).wf(),
        ensures
            final(self).wf(),
            !final(self).is_active,
            !final(self).in_speech,
            !final(self).seeking_word_break,
            final(self).ring_buffer == old(self).ring_buffer,
            final(self).sample_rate == old(self).sample_rate,
            final(self).channels == old(self).channels,
    {
        self.is_active = false;
        self.in_speech = false;
        self.seeking_word_break = false;
    }

    /// Whether the segment beginning at `segment_start_idx` has reached the
    /// ring's overflow threshold.
    pub open spec fn spec_overflow_triggered(self) -> bool {
        self.in_speech && ring_distance(
            self.segment_start_idx as int,
            self.ring_buffer.spec_write_pos(),
            self.ring_buffer.spec_capacity(),
        ) >= self.ring_buffer.spec_capacity() * 90 / 100
    }

    /// Process incoming audio: always write to the ring; when in speech,
    /// first cut at the overflow threshold, then track duration, and force a
    /// cut when the word-break grace period has expired.
    ///
    /// The relation between the state before and after the call, and the
    /// returned segment, is [`spec_process_post`].
    pub fn process_samples(&mut self, samples: &Vec<i32>) -> (r: Option<QueuedSegment>)
        requires
            old(self).wf(),
            valid_frame(samples@),
            samples@.len() < old(self).ring_buffer.spec_capacity(),
        ensures
            final(self).wf(),
            spec_process_samples_post(*old(self), *final(self), samples@, r),
    {
        if !self.is_active {
            return None;
        }

        // Cut at the overflow threshold before writing, so the open segment
        // is extracted before the ring overwrites it.
        let overflow_segment: Option<Vec<i32>> = if self.in_speech
            && self.ring_buffer.is_approaching_overflow(self.segment_start_idx) {
            let segment = self.ring_buffer.extract_segment(self.segment_start_idx);
            proof {
                lemma_ring_slice_valid(
                    self.ring_buffer.contents(),
                    self.segment_start_idx as int,
                    self.ring_buffer.spec_write_pos(),
                );
            }
            self.segment_start_idx = self.ring_buffer.write_position();
            self.segment_sample_count = 0;
            self.seeking_word_break = false;
            self.lookback_sample_count = 0;
            Some(segment)
        } else {
            None
        };

        self.ring_buffer.write(samples);

        if self.in_speech {
            let len64 = samples.len() as u64;
            self.segment_sample_count = if u64::MAX - self.segment_sample_count >= len64 {
                self.segment_sample_count + len64
            } else {
                u64::MAX
            };

            let duration_ms = self.samples_to_ms(self.segment_sample_count);
            if !self.seeking_word_break && duration_ms >= MAX_SEGMENT_DURATION_MS {
                self.seeking_word_break = true;
                self.word_break_seek_start_samples = self.segment_sample_count;
            }

            if self.seeking_word_break {
                let since_seek = self.segment_sample_count - self.word_break_seek_start_samples;
                let grace_ms = self.samples_to_ms(since_seek);
                if grace_ms >= WORD_BREAK_GRACE_MS {
                    let forced = self.force_segment_extraction();
                    if forced.is_some() {
                        return forced;
                    }
                }
            }
        }

        match overflow_segment {
            Some(segment) => self.queue_segment(segment),
            None => None,
        }
    }

    /// Speech confirmed: open a segment that begins `lookback_samples` back
    /// from the write position.
    pub fn on_speech_started(&mut self, lookback_samples: usize)
        requires
            old(self).wf(),
        ensures
            final(self).wf(),
            spec_on_speech_started_post(*old(self), *final(self), lookback_samples as int),
    {
        if !self.is_active {
            return ;
        }
        self.in_speech = true;
        self.segment_start_idx = self.ring_buffer.index_from_lookback(lookback_samples);
        self.segment_sample_count = 0;
        self.seeking_word_break = false;
        self.lookback_sample_count = lookback_samples;
    }

    /// Speech ended: cut the open segment at the write position, close it,
    /// and hand it back if it passes validation.
    pub fn on_speech_ended(&mut self) -> (r: Option<QueuedSegment>)
        requires
            old(self).wf(),
        ensures
            final(self).wf(),
            spec_on_speech_ended_post(*old(self), *final(self), r),
    {
        if !self.is_active || !self.in_speech {
            return None;
        }
        let segment = self.ring_buffer.extract_segment(self.segment_start_idx);
        proof {
            lemma_ring_slice_valid(
                self.ring_buffer.contents(),
                self.segment_start_idx as int,
                self.ring_buffer.spec_write_pos(),
            );
        }
        self.in_speech = false;
        self.segment_sample_count = 0;
        self.seeking_word_break = false;
        self.lookback_sample_count = 0;
        self.queue_segment(segment)
    }

    /// A word break arrived while one was sought: cut at the midpoint of the
    /// gap, hand the cut segment back if valid, and continue the segment from
    /// the cut.
    ///
    /// `offset_ms` is the speech offset at which the gap began, counted from
    /// speech confirmation; `gap_duration_ms` is the length of the gap.
    pub fn on_word_break(&mut self, offset_ms: u32, gap_duration_ms: u32) -> (r: Option<
        QueuedSegment,
    >)
        requires
            old(self).wf(),
        ensures
            final(self).wf(),
            spec_on_word_break_post(
                *old(self),
                *final(self),
                offset_ms as int,
                gap_duration_ms as int,
                r,
            ),
    {
        if !self.is_active || !self.in_speech || !self.seeking_word_break {
            return None;
        }

        // Cut at the midpoint of the gap; the extracted span includes the
        // segment's lookback samples.
        let gap_midpoint_ms: u64 = offset_ms as u64 + (gap_duration_ms as u64 / 2);
        let gap_midpoint_samples: u64 = self.ms_to_samples(gap_midpoint_ms);

        let extraction_length: u128 = {
            let want = self.lookback_sample_count as u128 + gap_midpoint_samples as u128;
            let have = self.lookback_sample_count as u128 + self.segment_sample_count as u128;
            if want < have {
                want
            } else {
                have
            }
        };

        if extraction_length == 0 {
            return None;
        }

        let cap = self.ring_buffer.capacity();
        let extraction_end_idx: usize = ((self.segment_start_idx as u128 + extraction_length)
            % cap as u128) as usize;

        let segment = self.ring_buffer.extract_segment_to(
            self.segment_start_idx,
            extraction_end_idx,
        );
        proof {
            lemma_ring_slice_valid(
                self.ring_buffer.contents(),
                self.segment_start_idx as int,
                extraction_end_idx as int,
            );
        }

        if segment.len() == 0 {
            return None;
        }

        let r = self.queue_segment(segment);

        self.segment_start_idx = extraction_end_idx;
        self.lookback_sample_count = 0;
        self.segment_sample_count = if self.segment_sample_count >= gap_midpoint_samples {
            self.segment_sample_count - gap_midpoint_samples
        } else {
            0
        };
        self.seeking_word_break = false;
        r
    }

    /// Cut the open segment at the write position because the grace period
    /// expired with no word break; the segment continues from the cut.
    fn force_segment_extraction(&mut self) -> (r: Option<QueuedSegment>)
        requires
            old(self).wf(),
            old(self).is_active,
            old(self).in_speech,
        ensures
            final(self).wf(),
            spec_forced_cut_post(*old(self), *final(self), r),
    {
        let segment = self.ring_buffer.extract_segment(self.segment_start_idx);
        proof {
            lemma_ring_slice_valid(
                self.ring_buffer.contents(),
                self.segment_start_idx as int,
                self.ring_buffer.spec_write_pos(),
            );
        }
        if segment.len() == 0 {
            self.seeking_word_break = false;
            return None;
        }
        let r = self.queue_segment(segment);
        self.segment_start_idx = self.ring_buffer.write_position();
        self.segment_sample_count = 0;
        self.lookback_sample_count = 0;
        self.seeking_word_break = false;
        r
    }

    /// Milliseconds of `samples` at this state's sample rate.
    fn samples_to_ms(&self, samples: u64) -> (r: u64)
        requires
            self.sample_rate >= 1000,
        ensures
            r as int == spec_duration_ms(samples as int, self.sample_rate as int),
    {
        proof {
            assert(samples as int * 1000 / self.sample_rate as int <= samples as int)
                by (nonlinear_arith)
                requires
                    self.sample_rate as int >= 1000,
                    samples as int >= 0,
            ;
        }
        ((samples as u128 * 1000) / self.sample_rate as u128) as u64
    }

    /// Samples of `ms` milliseconds at this state's sample rate.
    fn ms_to_samples(&self, ms: u64) -> (r: u64)
        requires
            self.sample_rate >= 1,
            ms <= 0x2_0000_0000u64,
        ensures
            r as int == spec_ms_to_samples(ms as int, self.sample_rate as int),
    {
        proof {
            assert(ms as int * self.sample_rate as int <= 0x2_0000_0000int * 0x1_0000_0000int)
                by (nonlinear_arith)
                requires
                    ms as int <= 0x2_0000_0000int,
                    self.sample_rate as int <= 0x1_0000_0000int,
            ;
            assert(ms as int * self.sample_rate as int / 1000 <= ms as int * self.sample_rate
                as int) by (nonlinear_arith)
                requires
                    ms as int * self.sample_rate as int >= 0,
            ;
        }
        ((ms as u128 * self.sample_rate as u128) / 1000) as u64
    }

    /// Whether a segment has enough content to be worth transcribing: long
    /// enough and loud enough.
    pub fn is_segment_valid_for_transcription(&self, samples: &Vec<i32>) -> (r: bool)
        requires
            self.sample_rate >= 1,
            valid_frame(samples@),
        ensures
            r == spec_segment_valid(samples@, self.sample_rate as int),
    {
        if samples.len() == 0 {
            return false;
        }
        let duration_ms: u128 = (samples.len() as u128 * 1000) / self.sample_rate as u128;
        if duration_ms < MIN_SEGMENT_DURATION_MS as u128 {
            return false;
        }
        let mut sum_sq: u128 = 0;
        let mut i: usize = 0;
        proof {
            assert(samples@.skip(0) =~= samples@);
        }
        while i < samples.len()
            invariant
                valid_frame(samples@),
                i <= samples@.len(),
                sum_sq as int + spec_sum_sq(samples@.skip(i as int)) == spec_sum_sq(samples@),
                sum_sq as int <= i as int * (SAMPLE_UNIT_SQ as int),
            decreases samples@.len() - i,
        {
            let x = samples[i];
            proof {
                assert(samples@.skip(i as int)[0] == samples@[i as int]);
                assert(samples@.skip(i as int).skip(1) =~= samples@.skip(i as int + 1));
                assert(x as int * x as int <= SAMPLE_UNIT_SQ as int) by (nonlinear_arith)
                    requires
                        -32768 <= x as int <= 32768,
                ;
                assert((i as int + 1) * (SAMPLE_UNIT_SQ as int) == i as int * (SAMPLE_UNIT_SQ
                    as int) + SAMPLE_UNIT_SQ as int) by (nonlinear_arith);
                assert(x as int * x as int >= 0) by (nonlinear_arith);
                assert((i as int + 1) * (SAMPLE_UNIT_SQ as int) <= 0x10000000000000000
                    * 0x40000000) by (nonlinear_arith)
                    requires
                        i as int + 1 <= 0x10000000000000000,
                ;
            }
            sum_sq = sum_sq + (x as i64 * x as i64) as u128;
            i += 1;
        }
        proof {
            assert(samples@.skip(samples@.len() as int) =~= Seq::<i32>::empty());
            lemma_sum_sq_nonneg(samples@);
        }
        10000u128 * sum_sq >= samples.len() as u128 * RMS_FLOOR_SCALE as u128
    }

    /// Validate a cut segment and wrap it for the queue; a segment that is
    /// empty, too short or too quiet yields `None` and is dropped.
    pub fn queue_segment(&self, samples: Vec<i32>) -> (r: Option<QueuedSegment>)
        requires
            self.sample_rate >= 1,
            valid_frame(samples@),
        ensures
            spec_validated_segment(samples@, *self, r),
    {
        if samples.len() == 0 {
            return None;
        }
        if !self.is_segment_valid_for_transcription(&samples) {
            return None;
        }
        Some(
            QueuedSegment {
                samples,
                sample_rate: self.sample_rate,
                channels: self.channels,
                wav_path: None,
            },
        )
    }

    /// Close any open segment; called when transcribe mode stops. With a
    /// segment open this behaves exactly as [`Self::on_speech_ended`]: the
    /// span from the segment start to the write position is extracted,
    /// validated, and handed back; otherwise nothing changes.
    pub fn finalize(&mut self) -> (r: Option<QueuedSegment>)
        requires
            old(self).wf(),
        ensures
            final(self).wf(),
            spec_finalize_post(*old(self), *final(self), r),
    {
        if self.in_speech {
            self.on_speech_ended()
        } else {
            None
        }
    }
}

/// Square of the fixed-point unit.
pub const SAMPLE_UNIT_SQ: u64 = 1073741824;

/// `r` is the segment `s` wrapped for the queue when `s` passes validation,
/// and `None` otherwise.
pub open spec fn spec_validated_segment(
    s: Seq<i32>,
    st: TranscribeState,
    r: Option<QueuedSegment>,
) -> bool {
    if spec_segment_valid(s, st.sample_rate as int) {
        &&& r matches Some(q)
        &&& (r matches Some(q) ==> {
            &&& q.samples@ == s
            &&& q.sample_rate == st.sample_rate
            &&& q.channels == st.channels
            &&& q.wav_path is None
        })
    } else {
        r is None
    }
}

/// What `process_samples` does when transcribe mode is active, relating the
/// state before (`pre`) and after (`post`) and the returned segment `r`.
pub open spec fn spec_process_post(
    pre: TranscribeState,
    post: TranscribeState,
    frame: Seq<i32>,
    r: Option<QueuedSegment>,
) -> bool {
    let cap = pre.ring_buffer.spec_capacity();
    let pos0 = pre.ring_buffer.spec_write_pos();
    let n = frame.len() as int;
    let overflow = pre.spec_overflow_triggered();
    let start1 = if overflow {
        pos0
    } else {
        pre.segment_start_idx as int
    };
    let pos1 = ring_advance(pos0, n, cap);
    let count1 = if !pre.in_speech {
        pre.segment_sample_count as int
    } else if overflow {
        n
    } else {
        spec_sat_add_u64(pre.segment_sample_count as int, n)
    };
    let seeking_a = if overflow {
        false
    } else {
        pre.seeking_word_break
    };
    let dur_ms = spec_duration_ms(count1, pre.sample_rate as int);
    let trigger = pre.in_speech && !seeking_a && dur_ms >= MAX_SEGMENT_DURATION_MS as int;
    let seeking_b = seeking_a || trigger;
    let seek_start_b = if trigger {
        count1
    } else {
        pre.word_break_seek_start_samples as int
    };
    let grace_expired = pre.in_speech && seeking_b && spec_duration_ms(
        count1 - seek_start_b,
        pre.sample_rate as int,
    ) >= WORD_BREAK_GRACE_MS as int;
    let contents1 = ring_written(pre.ring_buffer.contents(), pos0, frame);
    let force = grace_expired && ring_distance(start1, pos1, cap) > 0;

    &&& post.is_active == pre.is_active
    &&& post.sample_rate == pre.sample_rate
    &&& post.channels == pre.channels
    &&& post.in_speech == pre.in_speech
    &&& post.ring_buffer.contents() == contents1
    &&& post.ring_buffer.spec_write_pos() == pos1
    &&& post.ring_buffer.spec_capacity() == cap
    &&& post.segment_start_idx as int == if force {
        pos1
    } else {
        start1
    }
    &&& post.segment_sample_count as int == if !pre.in_speech {
        pre.segment_sample_count as int
    } else if force {
        0
    } else {
        count1
    }
    &&& post.seeking_word_break == (pre.in_speech && seeking_b && !grace_expired)
    &&& post.lookback_sample_count as int == if overflow || force {
        0
    } else {
        pre.lookback_sample_count as int
    }
    &&& if force {
        spec_validated_segment(ring_slice(contents1, start1, pos1), pre, r)
    } else if overflow {
        spec_validated_segment(
            ring_slice(pre.ring_buffer.contents(), pre.segment_start_idx as int, pos0),
            pre,
            r,
        )
    } else {
        r is None
    }
}

/// What a forced cut does: the open segment is cut at the write position and
/// continues from there; an empty cut only ends the word-break search.
pub open spec fn spec_forced_cut_post(
    pre: TranscribeState,
    post: TranscribeState,
    r: Option<QueuedSegment>,
) -> bool {
    let cap = pre.ring_buffer.spec_capacity();
    let pos = pre.ring_buffer.spec_write_pos();
    let start = pre.segment_start_idx as int;
    let empty = ring_distance(start, pos, cap) == 0;

    &&& post.ring_buffer == pre.ring_buffer
    &&& post.is_active == pre.is_active
    &&& post.in_speech == pre.in_speech
    &&& post.sample_rate == pre.sample_rate
    &&& post.channels == pre.channels
    &&& !post.seeking_word_break
    &&& (empty ==> {
        &&& r is None
        &&& post.segment_start_idx == pre.segment_start_idx
        &&& post.segment_sample_count == pre.segment_sample_count
        &&& post.lookback_sample_count == pre.lookback_sample_count
    })
    &&& (!empty ==> {
        &&& spec_validated_segment(ring_slice(pre.ring_buffer.contents(), start, pos), pre, r)
        &&& post.segment_start_idx as int == pos
        &&& post.segment_sample_count == 0
        &&& post.lookback_sample_count == 0
    })
}

/// What a word-break cut does while one is sought: the segment is cut at the
/// midpoint of the gap (lookback included, clamped to what the segment
/// holds), handed back if valid, and continues from the cut with the
/// remaining post-cut samples.
pub open spec fn spec_word_break_post(
    pre: TranscribeState,
    post: TranscribeState,
    offset_ms: int,
    gap_duration_ms: int,
    r: Option<QueuedSegment>,
) -> bool {
    let cap = pre.ring_buffer.spec_capacity();
    let start = pre.segment_start_idx as int;
    let gap_midpoint_samples = spec_ms_to_samples(
        offset_ms + gap_duration_ms / 2,
        pre.sample_rate as int,
    );
    let want = pre.lookback_sample_count as int + gap_midpoint_samples;
    let have = pre.lookback_sample_count as int + pre.segment_sample_count as int;
    let ext_len = if want < have {
        want
    } else {
        have
    };
    let end = (start + ext_len) % cap;
    let nothing = ext_len == 0 || ring_distance(start, end, cap) == 0;

    &&& (nothing ==> post == pre && r is None)
    &&& (!nothing ==> {
        &&& spec_validated_segment(ring_slice(pre.ring_buffer.contents(), start, end), pre, r)
        &&& post.ring_buffer == pre.ring_buffer
        &&& post.is_active == pre.is_active
        &&& post.in_speech == pre.in_speech
        &&& post.sample_rate == pre.sample_rate
        &&& post.channels == pre.channels
        &&& post.segment_start_idx as int == end
        &&& post.lookback_sample_count == 0
        &&& post.segment_sample_count as int == if pre.segment_sample_count as int
            >= gap_midpoint_samples {
            pre.segment_sample_count as int - gap_midpoint_samples
        } else {
            0
        }
        &&& !post.seeking_word_break
    })
}

/// The overflow cut: while a segment is open and has reached the ring's
/// overflow threshold, processing a frame cuts the segment at the write
/// position before the frame is written; the returned segment is exactly
/// the validated span from the segment start to that position, and the
/// segment continues in speech from there with its counters reset.
pub proof fn lemma_overflow_cut(
    pre: TranscribeState,
    post: TranscribeState,
    frame: Seq<i32>,
    r: Option<QueuedSegment>,
)
    requires
        pre.wf(),
        pre.is_active,
        pre.spec_overflow_triggered(),
        spec_process_post(pre, post, frame, r),
    ensures
        spec_validated_segment(
            ring_slice(
                pre.ring_buffer.contents(),
                pre.segment_start_idx as int,
                pre.ring_buffer.spec_write_pos(),
            ),
            pre,
            r,
        ),
        post.in_speech == pre.in_speech,
        post.segment_start_idx as int == pre.ring_buffer.spec_write_pos(),
        post.lookback_sample_count == 0,
        post.segment_sample_count as int == frame.len() as int,
        post.seeking_word_break == (spec_duration_ms(
            frame.len() as int,
            pre.sample_rate as int,
        ) >= MAX_SEGMENT_DURATION_MS as int),
{
    let n = frame.len() as int;
    let rate = pre.sample_rate as int;
    // After the cut the segment holds only this frame, so the word-break
    // grace period cannot already have expired and no forced cut follows.
    assert(spec_duration_ms(n - n, rate) == 0);
}

/// What `process_samples` does: nothing while transcribe mode is inactive,
/// and [`spec_process_post`] while it is active.
pub open spec fn spec_process_samples_post(
    pre: TranscribeState,
    post: TranscribeState,
    frame: Seq<i32>,
    r: Option<QueuedSegment>,
) -> bool {
    if !pre.is_active {
        post == pre && r is None
    } else {
        spec_process_post(pre, post, frame, r)
    }
}

/// What `on_speech_started` does: nothing while transcribe mode is
/// inactive; otherwise a segment opens whose start lies `lookback_samples`
/// back from the write position, clamped to the ring.
pub open spec fn spec_on_speech_started_post(
    pre: TranscribeState,
    post: TranscribeState,
    lookback_samples: int,
) -> bool {
    if !pre.is_active {
        post == pre
    } else {
        &&& post.in_speech
        &&& post.segment_sample_count == 0
        &&& !post.seeking_word_break
        &&& post.lookback_sample_count == lookback_samples
        &&& post.ring_buffer == pre.ring_buffer
        &&& post.is_active
        &&& post.sample_rate == pre.sample_rate
        &&& post.channels == pre.channels
        &&& (lookback_samples >= pre.ring_buffer.spec_capacity() ==> post.segment_start_idx
            as int == pre.ring_buffer.spec_write_pos())
        &&& (lookback_samples < pre.ring_buffer.spec_capacity() ==> ring_distance(
            post.segment_start_idx as int,
            pre.ring_buffer.spec_write_pos(),
            pre.ring_buffer.spec_capacity(),
        ) == lookback_samples)
    }
}

/// What `on_speech_ended` does: nothing without an open segment in active
/// mode; otherwise the span from the segment start to the write position is
/// extracted and validated, the segment closes, and its counters reset.
pub open spec fn spec_on_speech_ended_post(
    pre: TranscribeState,
    post: TranscribeState,
    r: Option<QueuedSegment>,
) -> bool {
    if !pre.is_active || !pre.in_speech {
        post == pre && r is None
    } else {
        &&& !post.in_speech
        &&& !post.seeking_word_break
        &&& post.segment_sample_count == 0
        &&& post.lookback_sample_count == 0
        &&& post.ring_buffer == pre.ring_buffer
        &&& post.is_active
        &&& post.segment_start_idx == pre.segment_start_idx
        &&& post.sample_rate == pre.sample_rate
        &&& post.channels == pre.channels
        &&& spec_validated_segment(
            ring_slice(
                pre.ring_buffer.contents(),
                pre.segment_start_idx as int,
                pre.ring_buffer.spec_write_pos(),
            ),
            pre,
            r,
        )
    }
}

/// What `on_word_break` does: nothing unless a word break is being sought
/// inside an open segment, and [`spec_word_break_post`] when one is.
pub open spec fn spec_on_word_break_post(
    pre: TranscribeState,
    post: TranscribeState,
    offset_ms: int,
    gap_duration_ms: int,
    r: Option<QueuedSegment>,
) -> bool {
    if !(pre.is_active && pre.in_speech && pre.seeking_word_break) {
        post == pre && r is None
    } else {
        spec_word_break_post(pre, post, offset_ms, gap_duration_ms, r)
    }
}

/// What `finalize` does: with a segment open it behaves exactly as
/// `on_speech_ended`, flushing the pending span through the same validation;
/// otherwise nothing changes and nothing is returned.
pub open spec fn spec_finalize_post(
    pre: TranscribeState,
    post: TranscribeState,
    r: Option<QueuedSegment>,
) -> bool {
    if pre.in_speech {
        spec_on_speech_ended_post(pre, post, r)
    } else {
        post == pre && r is None
    }
}

} // verus!
