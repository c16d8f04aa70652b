//! Dual-mode voice-activity detection with lookback and word-break
//! discovery.
//!
//! The detector classifies each frame by RMS amplitude, zero-crossing rate
//! and spectral-centroid surrogate, confirms speech onsets against per-mode
//! onset times with a grace period for brief dips, rejects impulsive
//! transients, ends speech after a silence hold, scans a lookback ring for
//! the true start of speech, and reports short intra-speech gaps as word
//! breaks.

use vstd::prelude::*;

use crate::features::{
    extract_features, spec_abs, spec_centroid_hz, spec_crossings, spec_rms_q15, FrameFeatures,
};
use crate::ring::{ring_advance, ring_written, SegmentRingBuffer};
use crate::sample::valid_frame;

verus! {

/// Fixed-point RMS amplitude floor of the voiced mode; about -42 dB.
pub const VOICED_RMS_FLOOR_Q15: u32 = 260;

/// Fixed-point RMS amplitude floor of the whisper mode; about -52 dB.
pub const WHISPER_RMS_FLOOR_Q15: u32 = 82;

/// Fixed-point peak amplitude floor of the lookback scan; about -55 dB.
pub const LOOKBACK_PEAK_FLOOR_Q15: u32 = 58;

/// Size of the chunks the lookback scan walks, in samples.
pub const LOOKBACK_CHUNK_SIZE: usize = 128;

/// Speech state change detected by the speech detector.
#[derive(Debug, Clone, Copy, PartialEq, Eq, Structural)]
pub enum SpeechStateChange {
    /// No change in speech state.
    NoChange,
    /// Speech started, with the lookback sample count to prepend.
    Started { lookback_samples: usize },
    /// Speech ended, with its duration in milliseconds.
    Ended { duration_ms: u64 },
}

/// Word break detected during speech.
#[derive(Debug, Clone, Copy, PartialEq, Eq, Structural)]
pub struct WordBreakEvent {
    /// Offset from speech confirmation in milliseconds.
    pub offset_ms: u32,
    /// Duration of the gap in milliseconds.
    pub gap_duration_ms: u32,
}

/// Event payload for speech start and end events.
#[derive(Debug, Clone, Copy, PartialEq, Eq, Structural)]
pub struct SpeechEventPayload {
    /// For speech end: how long the speech lasted, in milliseconds.
    pub duration_ms: Option<u64>,
    /// For speech start: how far back the true start was found, in
    /// milliseconds.
    pub lookback_offset_ms: Option<u32>,
}

/// Event payload for word-break events.
#[derive(Debug, Clone, Copy, PartialEq, Eq, Structural)]
pub struct WordBreakPayload {
    /// Offset from speech confirmation in milliseconds.
    pub offset_ms: u32,
    /// Duration of the gap in milliseconds.
    pub gap_duration_ms: u32,
}

/// Callback interface for speech events, implemented by the embedding
/// process.
pub trait SpeechEventCallback {
    /// Called when speech starts.
    fn on_speech_started(&self, payload: SpeechEventPayload);

    /// Called when speech ends.
    fn on_speech_ended(&self, payload: SpeechEventPayload);

    /// Called when a word break is detected.
    fn on_word_break(&self, payload: WordBreakPayload);
}

/// Per-frame speech metrics for visualization.
#[derive(Debug, Clone, Copy, PartialEq, Eq, Structural)]
pub struct SpeechMetrics {
    /// RMS amplitude in fixed-point units.
    pub amplitude_rms_q15: u32,
    /// Zero-crossing rate in thousandths.
    pub zcr_milli: u32,
    /// Spectral-centroid surrogate in hertz.
    pub centroid_hz: u64,
    /// Whether speech is currently detected.
    pub is_speaking: bool,
    /// Whether a voiced onset is pending.
    pub is_voiced_pending: bool,
    /// Whether a whisper onset is pending.
    pub is_whisper_pending: bool,
    /// Whether the last frame was classified as a transient.
    pub is_transient: bool,
    /// Whether this frame retroactively identified earlier speech.
    pub is_lookback_speech: bool,
    /// Lookback offset in milliseconds, set when speech was just confirmed.
    pub lookback_offset_ms: Option<u32>,
    /// Whether a word-break gap is currently detected.
    pub is_word_break: bool,
}

/// The voiced mode admits frames of speech-band energy: at least the voiced
/// amplitude floor, a zero-crossing rate within [0.01, 0.30], and a centroid
/// within [200, 5500] hertz.
pub open spec fn spec_matches_voiced(s: Seq<i32>, rate: int) -> bool {
    let n = s.len() as int;
    let cr = spec_crossings(s);
    let c = spec_centroid_hz(s, rate);
    &&& n >= 2
    &&& spec_rms_q15(s) >= VOICED_RMS_FLOOR_Q15 as int
    &&& 100 * cr >= n - 1
    &&& 10 * cr <= 3 * (n - 1)
    &&& 200 <= c <= 5500
}

/// The whisper mode admits soft frames: at least the whisper amplitude
/// floor, a zero-crossing rate within [0.08, 0.45], and a centroid within
/// [300, 7000] hertz.
pub open spec fn spec_matches_whisper(s: Seq<i32>, rate: int) -> bool {
    let n = s.len() as int;
    let cr = spec_crossings(s);
    let c = spec_centroid_hz(s, rate);
    &&& n >= 2
    &&& spec_rms_q15(s) >= WHISPER_RMS_FLOOR_Q15 as int
    &&& 25 * cr >= 2 * (n - 1)
    &&& 20 * cr <= 9 * (n - 1)
    &&& 300 <= c <= 7000
}

/// A transient is an impulsive frame: a zero-crossing rate above 0.45 and a
/// centroid above 6500 hertz.
pub open spec fn spec_is_transient(s: Seq<i32>, rate: int) -> bool {
    let n = s.len() as int;
    &&& n >= 2
    &&& 20 * spec_crossings(s) > 9 * (n - 1)
    &&& spec_centroid_hz(s, rate) > 6500
}

/// Millisecond value clamped into `u32`.
pub open spec fn spec_sat_u32(x: int) -> int {
    if x <= u32::MAX as int {
        x
    } else {
        u32::MAX as int
    }
}

/// Saturating addition within `u64`.
pub open spec fn spec_sat_add_u64(a: int, b: int) -> int {
    if a + b <= u64::MAX as int {
        a + b
    } else {
        u64::MAX as int
    }
}

/// Peak absolute sample over `[lo, hi)`.
pub open spec fn spec_peak(s: Seq<i32>, lo: int, hi: int) -> int
    decreases hi - lo,
{
    if hi <= lo {
        0
    } else {
        let m = spec_peak(s, lo, hi - 1);
        let a = spec_abs(s[hi - 1] as int);
        if a >= m {
            a
        } else {
            m
        }
    }
}

/// Backward lookback scan from `pos`, carrying the earliest chunk start
/// found at or above the peak floor in `first`: walks chunks toward the
/// front, records a chunk start whenever its peak reaches the floor, and
/// stops at the first chunk below the floor after something was found.
pub open spec fn spec_scan(s: Seq<i32>, pos: int, first: int) -> int
    decreases pos,
{
    if pos <= 0 {
        first
    } else {
        let cs = if pos >= LOOKBACK_CHUNK_SIZE as int {
            pos - LOOKBACK_CHUNK_SIZE as int
        } else {
            0
        };
        if spec_peak(s, cs, pos) >= LOOKBACK_PEAK_FLOOR_Q15 as int {
            spec_scan(s, cs, cs)
        } else if first < s.len() {
            first
        } else {
            spec_scan(s, cs, first)
        }
    }
}

/// Number of samples the lookback scan reports from the end of the
/// chronological buffer `s`: everything from the earliest above-floor chunk,
/// less a margin.
pub open spec fn spec_lookback_count(s: Seq<i32>, margin: int) -> int {
    let first = spec_scan(s, s.len() as int, s.len() as int);
    let with_margin = if first >= margin {
        first - margin
    } else {
        0
    };
    s.len() - with_margin
}

/// Speech detector: feature classification, dual-mode onset hysteresis,
/// silence hold, lookback, and word-break discovery.
pub struct SpeechDetector {
    /// Sample rate for all time conversions.
    pub sample_rate: u32,
    /// Voiced onset time in samples (80 ms).
    pub voiced_onset_samples: u64,
    /// Whisper onset time in samples (120 ms).
    pub whisper_onset_samples: u64,
    /// Silence hold before speech ends, in samples (300 ms).
    pub hold_samples: u64,
    /// Grace allowance during onset, in samples (30 ms).
    pub onset_grace_samples: u64,
    /// Minimum word-break gap in samples (15 ms).
    pub min_word_break_samples: u64,
    /// Maximum word-break gap in samples (200 ms).
    pub max_word_break_samples: u64,
    /// Window of the rolling speech amplitude average, in samples (100 ms).
    pub recent_speech_window_samples: u64,
    /// Margin added before the earliest above-floor lookback chunk (20 ms).
    pub lookback_margin_samples: u64,
    /// Whether speech is currently detected.
    pub is_speaking: bool,
    /// Whether a voiced onset is pending.
    pub is_pending_voiced: bool,
    /// Whether a whisper onset is pending.
    pub is_pending_whisper: bool,
    /// Whether the first frame has been consumed.
    pub initialized: bool,
    /// Samples accumulated toward the voiced onset.
    pub voiced_onset_count: u64,
    /// Samples accumulated toward the whisper onset.
    pub whisper_onset_count: u64,
    /// Grace samples consumed by the pending voiced onset.
    pub voiced_grace_count: u64,
    /// Grace samples consumed by the pending whisper onset.
    pub whisper_grace_count: u64,
    /// Samples of silence while speaking.
    pub silence_sample_count: u64,
    /// Samples of speech since confirmation; saturating.
    pub speech_sample_count: u64,
    /// Rolling sum of recent speech amplitude times sample count.
    pub recent_speech_amplitude_sum: u64,
    /// Sample count of the rolling amplitude window.
    pub recent_speech_amplitude_count: u64,
    /// Whether a word-break gap is open.
    pub in_word_break: bool,
    /// Samples of the open word-break gap.
    pub word_break_sample_count: u64,
    /// Speech sample count when the open gap began.
    pub word_break_start_speech_samples: u64,
    /// Ring of recent samples for the lookback scan (200 ms).
    pub lookback_buffer: SegmentRingBuffer,
    /// Whether the lookback ring has wrapped at least once.
    pub lookback_filled: bool,
    /// RMS amplitude of the last frame.
    pub last_rms_q15: u32,
    /// Zero-crossing rate of the last frame, in thousandths.
    pub last_zcr_milli: u32,
    /// Centroid of the last frame in hertz.
    pub last_centroid_hz: u64,
    /// Whether the last frame was a transient.
    pub last_is_transient: bool,
    /// Whether the last frame sat inside a reportable word-break gap.
    pub last_is_word_break: bool,
    /// Lookback offset in milliseconds, set when speech was just confirmed.
    pub last_lookback_offset_ms: Option<u32>,
    /// State change detected by the last `process` call.
    pub last_state_change: SpeechStateChange,
    /// Word break detected by the last `process` call.
    pub last_word_break_event: Option<WordBreakEvent>,
}

impl SpeechDetector {
    /// Structural invariant: configuration pinned to the sample rate, and
    /// the counters within the bounds the state machine maintains.
    pub open spec fn wf(self) -> bool {
        &&& 1000 <= self.sample_rate <= 1000000
        &&& self.voiced_onset_samples == self.sample_rate as int * 80 / 1000
        &&& self.whisper_onset_samples == self.sample_rate as int * 120 / 1000
        &&& self.hold_samples == self.sample_rate as int * 300 / 1000
        &&& self.onset_grace_samples == self.sample_rate as int * 30 / 1000
        &&& self.min_word_break_samples == self.sample_rate as int * 15 / 1000
        &&& self.max_word_break_samples == self.sample_rate as int * 200 / 1000
        &&& self.recent_speech_window_samples == self.sample_rate as int * 100 / 1000
        &&& self.lookback_margin_samples == self.sample_rate as int * 20 / 1000
        &&& self.lookback_buffer.wf()
        &&& self.lookback_buffer.spec_capacity() == self.sample_rate as int * 200 / 1000
        &&& (self.is_speaking ==> !self.is_pending_voiced && !self.is_pending_whisper)
        &&& (!self.is_speaking ==> self.speech_sample_count == 0)
        &&& (self.is_pending_voiced ==> self.voiced_onset_count < self.voiced_onset_samples)
        &&& (!self.is_pending_voiced ==> self.voiced_onset_count == 0)
        &&& (self.is_pending_whisper ==> self.whisper_onset_count < self.whisper_onset_samples)
        &&& (!self.is_pending_whisper ==> self.whisper_onset_count == 0)
        &&& (self.is_pending_voiced ==> self.voiced_grace_count < self.onset_grace_samples)
        &&& (!self.is_pending_voiced ==> self.voiced_grace_count == 0)
        &&& (self.is_pending_whisper ==> self.whisper_grace_count < self.onset_grace_samples)
        &&& (!self.is_pending_whisper ==> self.whisper_grace_count == 0)
        &&& (self.is_speaking ==> self.silence_sample_count < self.hold_samples)
        &&& (self.in_word_break ==> self.is_speaking)
        &&& (self.in_word_break ==> self.word_break_sample_count <= self.silence_sample_count)
        &&& (!self.in_word_break ==> self.word_break_sample_count == 0)
        &&& self.recent_speech_amplitude_count <= self.recent_speech_window_samples
        &&& self.recent_speech_amplitude_sum <= self.recent_speech_amplitude_count as int * 32768
    }

    /// Create a detector with the default dual-mode configuration at the
    /// given sample rate.
    pub fn new(sample_rate: u32) -> (r: Self)
        requires
            1000 <= sample_rate <= 1000000,
        ensures
            r.wf(),
            r.sample_rate == sample_rate,
            !r.is_speaking,
            !r.initialized,
            r.last_state_change == SpeechStateChange::NoChange,
            r.last_word_break_event is None,
    {
        Self::with_defaults(sample_rate)
    }

    /// Create a detector with the default configuration: voiced onset 80 ms,
    /// whisper onset 120 ms, hold 300 ms, onset grace 30 ms, lookback ring
    /// 200 ms, word-break gaps between 15 ms and 200 ms, amplitude window
    /// 100 ms, lookback margin 20 ms.
    pub fn with_defaults(sample_rate: u32) -> (r: Self)
        requires
            1000 <= sample_rate <= 1000000,
        ensures
            r.wf(),
            r.sample_rate == sample_rate,
            !r.is_speaking,
            !r.initialized,
            r.last_state_change == SpeechStateChange::NoChange,
            r.last_word_break_event is None,
    {
        let rate64 = sample_rate as u64;
        let lookback_capacity = ((rate64 * 200) / 1000) as usize;
        SpeechDetector {
            sample_rate,
            voiced_onset_samples: (rate64 * 80) / 1000,
            whisper_onset_samples: (rate64 * 120) / 1000,
            hold_samples: (rate64 * 300) / 1000,
            onset_grace_samples: (rate64 * 30) / 1000,
            min_word_break_samples: (rate64 * 15) / 1000,
            max_word_break_samples: (rate64 * 200) / 1000,
            recent_speech_window_samples: (rate64 * 100) / 1000,
            lookback_margin_samples: (rate64 * 20) / 1000,
            is_speaking: false,
            is_pending_voiced: false,
            is_pending_whisper: false,
            initialized: false,
            voiced_onset_count: 0,
            whisper_onset_count: 0,
            voiced_grace_count: 0,
            whisper_grace_count: 0,
            silence_sample_count: 0,
            speech_sample_count: 0,
            recent_speech_amplitude_sum: 0,
            recent_speech_amplitude_count: 0,
            in_word_break: false,
            word_break_sample_count: 0,
            word_break_start_speech_samples: 0,
            lookback_buffer: SegmentRingBuffer::new(((rate64 * 200) / 1000) as usize),
            lookback_filled: false,
            last_rms_q15: 0,
            last_zcr_milli: 0,
            last_centroid_hz: 0,
            last_is_transient: false,
            last_is_word_break: false,
            last_lookback_offset_ms: None,
            last_state_change: SpeechStateChange::NoChange,
            last_word_break_event: None,
        }
    }

    /// The lookback ring in chronological order: oldest sample first.
    pub open spec fn spec_lookback_chrono(self) -> Seq<i32> {
        let c = self.lookback_buffer.contents();
        let p = self.lookback_buffer.spec_write_pos();
        if !self.lookback_filled {
            c.take(p)
        } else {
            c.skip(p) + c.take(p)
        }
    }

    /// The current speech detection metrics.
    pub fn get_metrics(&self) -> (r: SpeechMetrics)
        ensures
            r.amplitude_rms_q15 == self.last_rms_q15,
            r.zcr_milli == self.last_zcr_milli,
            r.centroid_hz == self.last_centroid_hz,
            r.is_speaking == self.is_speaking,
            r.is_voiced_pending == self.is_pending_voiced,
            r.is_whisper_pending == self.is_pending_whisper,
            r.is_transient == self.last_is_transient,
            !r.is_lookback_speech,
            r.lookback_offset_ms == self.last_lookback_offset_ms,
            r.is_word_break == self.last_is_word_break,
    {
        SpeechMetrics {
            amplitude_rms_q15: self.last_rms_q15,
            zcr_milli: self.last_zcr_milli,
            centroid_hz: self.last_centroid_hz,
            is_speaking: self.is_speaking,
            is_voiced_pending: self.is_pending_voiced,
            is_whisper_pending: self.is_pending_whisper,
            is_transient: self.last_is_transient,
            is_lookback_speech: false,
            lookback_offset_ms: self.last_lookback_offset_ms,
            is_word_break: self.last_is_word_break,
        }
    }

    /// Take the state change detected by the last `process` call, resetting
    /// it.
    pub fn take_state_change(&mut self) -> (r: SpeechStateChange)
        ensures
            r == old(self).last_state_change,
            final(self).last_state_change == SpeechStateChange::NoChange,
            *final(self) == (SpeechDetector {
                last_state_change: SpeechStateChange::NoChange,
                ..*old(self)
            }),
    {
        let r = self.last_state_change;
        self.last_state_change = SpeechStateChange::NoChange;
        r
    }

    /// Take the word break detected by the last `process` call, resetting
    /// it.
    pub fn take_word_break_event(&mut self) -> (r: Option<WordBreakEvent>)
        ensures
            r == old(self).last_word_break_event,
            final(self).last_word_break_event is None,
            *final(self) == (SpeechDetector { last_word_break_event: None, ..*old(self) }),
    {
        let r = self.last_word_break_event;
        self.last_word_break_event = None;
        r
    }

    /// Milliseconds of `samples` at this detector's sample rate.
    fn samples_to_ms(&self, samples: u64) -> (r: u64)
        requires
            self.sample_rate >= 1000,
        ensures
            r as int == samples as int * 1000 / self.sample_rate as int,
    {
        proof {
            assert(samples as int * 1000 / self.sample_rate as int <= samples as int)
                by (nonlinear_arith)
                requires
                    self.sample_rate as int >= 1000,
                    samples as int >= 0,
            ;
        }
        ((samples as u128 * 1000) / self.sample_rate as u128) as u64
    }

    /// Milliseconds of `samples`, clamped into `u32`.
    fn samples_to_ms_u32(&self, samples: u64) -> (r: u32)
        requires
            self.sample_rate >= 1000,
        ensures
            r as int == spec_sat_u32(samples as int * 1000 / self.sample_rate as int),
    {
        let ms = self.samples_to_ms(samples);
        if ms > u32::MAX as u64 {
            u32::MAX
        } else {
            ms as u32
        }
    }

    /// Copy the lookback ring out in chronological order.
    fn lookback_chrono(&self) -> (r: Vec<i32>)
        requires
            self.lookback_buffer.wf(),
        ensures
            r@ == self.spec_lookback_chrono(),
            valid_frame(r@),
    {
        let c = &self.lookback_buffer;
        let pos = c.write_pos;
        let cap = c.buffer.len();
        let mut out: Vec<i32> = Vec::new();
        if !self.lookback_filled {
            let mut i: usize = 0;
            while i < pos
                invariant
                    self.lookback_buffer.wf(),
                    pos == self.lookback_buffer.spec_write_pos(),
                    i <= pos,
                    out@ == self.lookback_buffer.contents().take(pos as int).take(i as int),
                decreases pos - i,
            {
                out.push(self.lookback_buffer.buffer[i]);
                proof {
                    assert(out@ =~= self.lookback_buffer.contents().take(pos as int).take(
                        i as int + 1,
                    ));
                }
                i += 1;
            }
            proof {
                assert(out@ =~= self.lookback_buffer.contents().take(pos as int));
            }
        } else {
            let mut i: usize = pos;
            while i < cap
                invariant
                    self.lookback_buffer.wf(),
                    pos == self.lookback_buffer.spec_write_pos(),
                    cap == self.lookback_buffer.spec_capacity(),
                    pos <= i <= cap,
                    out@ == self.lookback_buffer.contents().skip(pos as int).take(
                        i as int - pos as int,
                    ),
                decreases cap - i,
            {
                out.push(self.lookback_buffer.buffer[i]);
                proof {
                    assert(out@ =~= self.lookback_buffer.contents().skip(pos as int).take(
                        i as int + 1 - pos as int,
                    ));
                }
                i += 1;
            }
            let mut j: usize = 0;
            while j < pos
                invariant
                    self.lookback_buffer.wf(),
                    pos == self.lookback_buffer.spec_write_pos(),
                    cap == self.lookback_buffer.spec_capacity(),
                    j <= pos,
                    out@ == self.lookback_buffer.contents().skip(pos as int)
                        + self.lookback_buffer.contents().take(pos as int).take(j as int),
                decreases pos - j,
            {
                out.push(self.lookback_buffer.buffer[j]);
                proof {
                    assert(out@ =~= self.lookback_buffer.contents().skip(pos as int)
                        + self.lookback_buffer.contents().take(pos as int).take(j as int + 1));
                }
                j += 1;
            }
            proof {
                assert(out@ =~= self.lookback_buffer.contents().skip(pos as int)
                    + self.lookback_buffer.contents().take(pos as int));
            }
        }
        out
    }

    /// Scan the lookback ring backwards for the true start of speech: the
    /// earliest chunk whose peak reaches the floor, extended by the margin.
    /// Returns the sample count to prepend and its offset in milliseconds.
    pub fn find_lookback_start(&self) -> (r: (usize, u32))
        requires
            self.wf(),
        ensures
            r.0 as int == if self.spec_lookback_chrono().len() == 0 {
                0
            } else {
                spec_lookback_count(
                    self.spec_lookback_chrono(),
                    self.lookback_margin_samples as int,
                )
            },
            r.1 as int == spec_sat_u32(r.0 as int * 1000 / self.sample_rate as int),
    {
        let buffer = self.lookback_chrono();
        let len = buffer.len();
        if len == 0 {
            return (0, 0);
        }
        let mut first: usize = len;
        let mut pos: usize = len;
        let ghost target = spec_scan(buffer@, len as int, len as int);
        while pos > 0
            invariant_except_break
                len == buffer@.len(),
                valid_frame(buffer@),
                pos <= len,
                first <= len,
                spec_scan(buffer@, pos as int, first as int) == target,
            ensures
                first as int == target,
                first <= len,
            decreases pos,
        {
            let chunk_start = if pos >= LOOKBACK_CHUNK_SIZE {
                pos - LOOKBACK_CHUNK_SIZE
            } else {
                0
            };
            let mut peak: i32 = 0;
            let mut j: usize = chunk_start;
            while j < pos
                invariant
                    len == buffer@.len(),
                    valid_frame(buffer@),
                    chunk_start <= j <= pos <= len,
                    peak as int == spec_peak(buffer@, chunk_start as int, j as int),
                    0 <= peak,
                decreases pos - j,
            {
                let x = buffer[j];
                let ax: i32 = if x < 0 {
                    -x
                } else {
                    x
                };
                if ax >= peak {
                    peak = ax;
                }
                j += 1;
            }
            if peak >= LOOKBACK_PEAK_FLOOR_Q15 as i32 {
                first = chunk_start;
                pos = chunk_start;
            } else if first < len {
                break ;
            } else {
                pos = chunk_start;
            }
        }
        let margin = self.lookback_margin_samples;
        let start_with_margin: usize = if first as u64 >= margin {
            (first as u64 - margin) as usize
        } else {
            0
        };
        let count = len - start_with_margin;
        let offset_ms = self.samples_to_ms_u32(count as u64);
        (count, offset_ms)
    }
}

/// The frame bookkeeping every `process` call performs, whatever the state:
/// the frame is pushed into the lookback ring, the wrap flag follows, the
/// features are stored for the metrics, and the configuration is unchanged.
pub open spec fn spec_vad_frame_basics(
    pre: SpeechDetector,
    post: SpeechDetector,
    frame: Seq<i32>,
) -> bool {
    let cap = pre.lookback_buffer.spec_capacity();
    let pos = pre.lookback_buffer.spec_write_pos();
    let n = frame.len() as int;
    let rate = pre.sample_rate as int;
    let cr = spec_crossings(frame);

    &&& post.sample_rate == pre.sample_rate
    &&& post.voiced_onset_samples == pre.voiced_onset_samples
    &&& post.whisper_onset_samples == pre.whisper_onset_samples
    &&& post.hold_samples == pre.hold_samples
    &&& post.onset_grace_samples == pre.onset_grace_samples
    &&& post.min_word_break_samples == pre.min_word_break_samples
    &&& post.max_word_break_samples == pre.max_word_break_samples
    &&& post.recent_speech_window_samples == pre.recent_speech_window_samples
    &&& post.lookback_margin_samples == pre.lookback_margin_samples
    &&& post.lookback_buffer.contents() == ring_written(
        pre.lookback_buffer.contents(),
        pos,
        frame,
    )
    &&& post.lookback_buffer.spec_write_pos() == ring_advance(pos, n, cap)
    &&& post.lookback_buffer.spec_capacity() == cap
    &&& post.lookback_filled == (pre.lookback_filled || n >= cap - pos)
    &&& post.initialized
    &&& post.last_rms_q15 as int == spec_rms_q15(frame)
    &&& post.last_zcr_milli as int == if n < 2 {
        0
    } else {
        cr * 1000 / (n - 1)
    }
    &&& post.last_centroid_hz as int == spec_centroid_hz(frame, rate)
    &&& post.last_is_transient == spec_is_transient(frame, rate)
}

/// Everything `process` does, as a relation between the state before
/// (`pre`) and after (`post`) consuming `frame`.
///
/// The first frame only initializes. A transient frame clears any pending
/// onset and is otherwise ignored outside speech. A frame matching a speech
/// mode clears the silence counter; while speaking it extends the segment
/// and the rolling amplitude average and closes an open word-break gap,
/// reporting it when its length lies within the word-break range; outside
/// speech it accumulates per-mode onsets, confirming speech and scanning
/// the lookback ring once an onset time is reached, the voiced mode first.
/// A frame matching no mode consumes onset grace, and while speaking counts
/// silence, tracks sub-average gaps, and ends speech when the silence hold
/// is reached.
pub open spec fn spec_vad_step(
    pre: SpeechDetector,
    post: SpeechDetector,
    frame: Seq<i32>,
) -> bool {
    let n = frame.len() as int;
    let rate = pre.sample_rate as int;
    let rms = spec_rms_q15(frame);
    let voiced = spec_matches_voiced(frame, rate);
    let whisper = spec_matches_whisper(frame, rate);
    let transient = spec_is_transient(frame, rate);
    let candidate = voiced || whisper;

    &&& spec_vad_frame_basics(pre, post, frame)
    &&& if !pre.initialized {
        spec_vad_untouched_core(pre, post) && post.last_state_change
            == SpeechStateChange::NoChange && post.last_word_break_event is None
            && post.last_lookback_offset_ms is None && !post.last_is_word_break
    } else if transient && !pre.is_speaking {
        &&& !post.is_speaking
        &&& !post.is_pending_voiced
        &&& !post.is_pending_whisper
        &&& post.voiced_onset_count == 0
        &&& post.whisper_onset_count == 0
        &&& post.voiced_grace_count == 0
        &&& post.whisper_grace_count == 0
        &&& post.silence_sample_count == pre.silence_sample_count
        &&& post.speech_sample_count == pre.speech_sample_count
        &&& post.recent_speech_amplitude_sum == pre.recent_speech_amplitude_sum
        &&& post.recent_speech_amplitude_count == pre.recent_speech_amplitude_count
        &&& post.in_word_break == pre.in_word_break
        &&& post.word_break_sample_count == pre.word_break_sample_count
        &&& post.word_break_start_speech_samples == pre.word_break_start_speech_samples
        &&& post.last_state_change == SpeechStateChange::NoChange
        &&& post.last_word_break_event is None
        &&& post.last_lookback_offset_ms is None
        &&& !post.last_is_word_break
    } else if candidate && pre.is_speaking {
        spec_vad_step_speaking_candidate(pre, post, frame)
    } else if candidate && !pre.is_speaking {
        spec_vad_step_onset(pre, post, frame)
    } else {
        spec_vad_step_noncandidate(pre, post, frame)
    }
}

/// The detection state a pure bookkeeping call leaves alone.
pub open spec fn spec_vad_untouched_core(pre: SpeechDetector, post: SpeechDetector) -> bool {
    &&& post.is_speaking == pre.is_speaking
    &&& post.is_pending_voiced == pre.is_pending_voiced
    &&& post.is_pending_whisper == pre.is_pending_whisper
    &&& post.voiced_onset_count == pre.voiced_onset_count
    &&& post.whisper_onset_count == pre.whisper_onset_count
    &&& post.voiced_grace_count == pre.voiced_grace_count
    &&& post.whisper_grace_count == pre.whisper_grace_count
    &&& post.silence_sample_count == pre.silence_sample_count
    &&& post.speech_sample_count == pre.speech_sample_count
    &&& post.recent_speech_amplitude_sum == pre.recent_speech_amplitude_sum
    &&& post.recent_speech_amplitude_count == pre.recent_speech_amplitude_count
    &&& post.in_word_break == pre.in_word_break
    &&& post.word_break_sample_count == pre.word_break_sample_count
    &&& post.word_break_start_speech_samples == pre.word_break_start_speech_samples
}

/// A speech-matching frame while speaking: the silence counter clears, the
/// segment and the rolling amplitude average grow, and an open word-break
/// gap closes, reported when its length lies within the word-break range.
pub open spec fn spec_vad_step_speaking_candidate(
    pre: SpeechDetector,
    post: SpeechDetector,
    frame: Seq<i32>,
) -> bool {
    let n = frame.len() as int;
    let rate = pre.sample_rate as int;
    let rms = spec_rms_q15(frame);
    let window = pre.recent_speech_window_samples as int;
    let sum1 = pre.recent_speech_amplitude_sum + rms * n;
    let cnt1 = pre.recent_speech_amplitude_count + n;
    let scaled = cnt1 > window;
    let wb_report = pre.in_word_break && pre.min_word_break_samples
        <= pre.word_break_sample_count <= pre.max_word_break_samples;

    &&& post.is_speaking
    &&& post.is_pending_voiced == pre.is_pending_voiced
    &&& post.is_pending_whisper == pre.is_pending_whisper
    &&& post.voiced_onset_count == pre.voiced_onset_count
    &&& post.whisper_onset_count == pre.whisper_onset_count
    &&& post.voiced_grace_count == pre.voiced_grace_count
    &&& post.whisper_grace_count == pre.whisper_grace_count
    &&& post.silence_sample_count == 0
    &&& post.speech_sample_count as int == spec_sat_add_u64(pre.speech_sample_count as int, n)
    &&& post.recent_speech_amplitude_sum as int == if scaled {
        sum1 * window / cnt1
    } else {
        sum1
    }
    &&& post.recent_speech_amplitude_count as int == if scaled {
        window
    } else {
        cnt1
    }
    &&& !post.in_word_break
    &&& post.word_break_sample_count == 0
    &&& post.word_break_start_speech_samples == pre.word_break_start_speech_samples
    &&& post.last_state_change == SpeechStateChange::NoChange
    &&& post.last_lookback_offset_ms is None
    &&& !post.last_is_word_break
    &&& if wb_report {
        post.last_word_break_event == Some(
            WordBreakEvent {
                offset_ms: spec_sat_u32(
                    pre.word_break_start_speech_samples as int * 1000 / rate,
                ) as u32,
                gap_duration_ms: spec_sat_u32(
                    pre.word_break_sample_count as int * 1000 / rate,
                ) as u32,
            },
        )
    } else {
        post.last_word_break_event is None
    }
}

/// A speech-matching frame outside speech: onset accumulation, the voiced
/// mode winning over the whisper mode, confirming speech with a lookback
/// scan once an onset time is reached.
pub open spec fn spec_vad_step_onset(
    pre: SpeechDetector,
    post: SpeechDetector,
    frame: Seq<i32>,
) -> bool {
    let n = frame.len() as int;
    let rate = pre.sample_rate as int;
    let voiced = spec_matches_voiced(frame, rate);
    let whisper = spec_matches_whisper(frame, rate);
    let cv1 = if voiced {
        if pre.is_pending_voiced {
            pre.voiced_onset_count + n
        } else {
            n
        }
    } else {
        pre.voiced_onset_count as int
    };
    let cw1 = if whisper {
        if pre.is_pending_whisper {
            pre.whisper_onset_count + n
        } else {
            n
        }
    } else {
        pre.whisper_onset_count as int
    };
    let voiced_fire = voiced && cv1 >= pre.voiced_onset_samples;
    let whisper_fire = !voiced_fire && whisper && cw1 >= pre.whisper_onset_samples;

    &&& post.silence_sample_count == 0
    &&& post.recent_speech_amplitude_sum == pre.recent_speech_amplitude_sum
    &&& post.recent_speech_amplitude_count == pre.recent_speech_amplitude_count
    &&& post.in_word_break == pre.in_word_break
    &&& post.word_break_sample_count == pre.word_break_sample_count
    &&& post.word_break_start_speech_samples == pre.word_break_start_speech_samples
    &&& post.last_word_break_event is None
    &&& !post.last_is_word_break
    &&& if voiced_fire || whisper_fire {
        let speech = if voiced_fire {
            cv1
        } else {
            cw1
        };
        let chrono = post.spec_lookback_chrono();
        let lbc = if chrono.len() == 0 {
            0
        } else {
            spec_lookback_count(chrono, pre.lookback_margin_samples as int)
        };
        &&& post.is_speaking
        &&& !post.is_pending_voiced
        &&& !post.is_pending_whisper
        &&& post.voiced_onset_count == 0
        &&& post.whisper_onset_count == 0
        &&& post.voiced_grace_count == 0
        &&& post.whisper_grace_count == 0
        &&& post.speech_sample_count as int == speech
        &&& post.last_state_change == SpeechStateChange::Started {
            lookback_samples: lbc as usize,
        }
        &&& post.last_lookback_offset_ms == Some(
            spec_sat_u32(lbc * 1000 / rate) as u32,
        )
    } else {
        &&& !post.is_speaking
        &&& post.speech_sample_count == 0
        &&& post.is_pending_voiced == (voiced || pre.is_pending_voiced)
        &&& post.is_pending_whisper == (whisper || pre.is_pending_whisper)
        &&& post.voiced_onset_count as int == cv1
        &&& post.whisper_onset_count as int == cw1
        &&& post.voiced_grace_count as int == if voiced {
            0
        } else {
            pre.voiced_grace_count as int
        }
        &&& post.whisper_grace_count as int == if whisper {
            0
        } else {
            pre.whisper_grace_count as int
        }
        &&& post.last_state_change == SpeechStateChange::NoChange
        &&& post.last_lookback_offset_ms is None
    }
}

/// A frame matching no speech mode: pending onsets consume grace and drop
/// when it runs out; while speaking, silence accumulates, a sub-average gap
/// is tracked as a possible word break, and speech ends at the silence
/// hold.
pub open spec fn spec_vad_step_noncandidate(
    pre: SpeechDetector,
    post: SpeechDetector,
    frame: Seq<i32>,
) -> bool {
    let n = frame.len() as int;
    let rate = pre.sample_rate as int;
    let rms = spec_rms_q15(frame);
    let transient = spec_is_transient(frame, rate);
    let pv0 = if transient {
        false
    } else {
        pre.is_pending_voiced
    };
    let pw0 = if transient {
        false
    } else {
        pre.is_pending_whisper
    };
    let cv0 = if transient {
        0
    } else {
        pre.voiced_onset_count as int
    };
    let cw0 = if transient {
        0
    } else {
        pre.whisper_onset_count as int
    };
    let gv0 = if transient {
        0
    } else {
        pre.voiced_grace_count as int
    };
    let gw0 = if transient {
        0
    } else {
        pre.whisper_grace_count as int
    };
    let v_drop = pv0 && gv0 + n >= pre.onset_grace_samples;
    let w_drop = pw0 && gw0 + n >= pre.onset_grace_samples;
    let avg = if pre.recent_speech_amplitude_count == 0 {
        0int
    } else {
        pre.recent_speech_amplitude_sum as int / pre.recent_speech_amplitude_count as int
    };
    let gap = avg > 0 && 2 * rms < avg;
    let in_wb1 = if pre.is_speaking && gap {
        true
    } else {
        pre.in_word_break
    };
    let wbc1 = if pre.is_speaking && gap {
        if pre.in_word_break {
            pre.word_break_sample_count + n
        } else {
            n
        }
    } else {
        pre.word_break_sample_count as int
    };
    let wbs1 = if pre.is_speaking && gap && !pre.in_word_break {
        pre.speech_sample_count as int
    } else {
        pre.word_break_start_speech_samples as int
    };
    let silence1 = pre.silence_sample_count + n;
    let ended = pre.is_speaking && silence1 >= pre.hold_samples;

    &&& post.is_pending_voiced == (pv0 && !v_drop)
    &&& post.is_pending_whisper == (pw0 && !w_drop)
    &&& post.voiced_onset_count as int == if v_drop {
        0
    } else {
        cv0
    }
    &&& post.whisper_onset_count as int == if w_drop {
        0
    } else {
        cw0
    }
    &&& post.voiced_grace_count as int == if pv0 && !v_drop {
        gv0 + n
    } else {
        0
    }
    &&& post.whisper_grace_count as int == if pw0 && !w_drop {
        gw0 + n
    } else {
        0
    }
    &&& post.last_word_break_event is None
    &&& post.last_lookback_offset_ms is None
    &&& if !pre.is_speaking {
        &&& !post.is_speaking
        &&& post.speech_sample_count == 0
        &&& post.silence_sample_count == pre.silence_sample_count
        &&& post.recent_speech_amplitude_sum == pre.recent_speech_amplitude_sum
        &&& post.recent_speech_amplitude_count == pre.recent_speech_amplitude_count
        &&& post.in_word_break == pre.in_word_break
        &&& post.word_break_sample_count == pre.word_break_sample_count
        &&& post.word_break_start_speech_samples == pre.word_break_start_speech_samples
        &&& post.last_state_change == SpeechStateChange::NoChange
        &&& !post.last_is_word_break
    } else if ended {
        &&& !post.is_speaking
        &&& post.speech_sample_count == 0
        &&& post.silence_sample_count as int == silence1
        &&& post.recent_speech_amplitude_sum == 0
        &&& post.recent_speech_amplitude_count == 0
        &&& !post.in_word_break
        &&& post.word_break_sample_count == 0
        &&& post.word_break_start_speech_samples == 0
        &&& post.last_state_change == SpeechStateChange::Ended {
            duration_ms: (pre.speech_sample_count as int * 1000 / rate) as u64,
        }
        &&& !post.last_is_word_break
    } else {
        &&& post.is_speaking
        &&& post.speech_sample_count == pre.speech_sample_count
        &&& post.silence_sample_count as int == silence1
        &&& post.recent_speech_amplitude_sum == pre.recent_speech_amplitude_sum
        &&& post.recent_speech_amplitude_count == pre.recent_speech_amplitude_count
        &&& post.in_word_break == in_wb1
        &&& post.word_break_sample_count as int == wbc1
        &&& post.word_break_start_speech_samples as int == wbs1
        &&& post.last_state_change == SpeechStateChange::NoChange
        &&& post.last_is_word_break == (gap && pre.min_word_break_samples <= wbc1
            <= pre.max_word_break_samples)
    }
}

/// Equality of the detection core: everything but the lookback ring, the
/// stored frame features, and the event slots.
pub open spec fn spec_core_eq(a: SpeechDetector, b: SpeechDetector) -> bool {
    &&& b.sample_rate == a.sample_rate
    &&& b.voiced_onset_samples == a.voiced_onset_samples
    &&& b.whisper_onset_samples == a.whisper_onset_samples
    &&& b.hold_samples == a.hold_samples
    &&& b.onset_grace_samples == a.onset_grace_samples
    &&& b.min_word_break_samples == a.min_word_break_samples
    &&& b.max_word_break_samples == a.max_word_break_samples
    &&& b.recent_speech_window_samples == a.recent_speech_window_samples
    &&& b.lookback_margin_samples == a.lookback_margin_samples
    &&& spec_vad_untouched_core(a, b)
}

/// Equality of the fields `process` settles before dispatching on the frame
/// class: the lookback ring, the stored features, and the configuration.
pub open spec fn spec_frame_fields_eq(a: SpeechDetector, b: SpeechDetector) -> bool {
    &&& b.sample_rate == a.sample_rate
    &&& b.voiced_onset_samples == a.voiced_onset_samples
    &&& b.whisper_onset_samples == a.whisper_onset_samples
    &&& b.hold_samples == a.hold_samples
    &&& b.onset_grace_samples == a.onset_grace_samples
    &&& b.min_word_break_samples == a.min_word_break_samples
    &&& b.max_word_break_samples == a.max_word_break_samples
    &&& b.recent_speech_window_samples == a.recent_speech_window_samples
    &&& b.lookback_margin_samples == a.lookback_margin_samples
    &&& b.lookback_buffer == a.lookback_buffer
    &&& b.lookback_filled == a.lookback_filled
    &&& b.initialized == a.initialized
    &&& b.last_rms_q15 == a.last_rms_q15
    &&& b.last_zcr_milli == a.last_zcr_milli
    &&& b.last_centroid_hz == a.last_centroid_hz
    &&& b.last_is_transient == a.last_is_transient
}

impl SpeechDetector {
    /// Process one frame of audio for speech detection.
    ///
    /// The relation between the state before and after the call is
    /// [`spec_vad_step`]; the events detected are left in
    /// `last_state_change` and `last_word_break_event` for
    /// [`Self::take_state_change`] and [`Self::take_word_break_event`].
    #[verifier::spinoff_prover]
    #[verifier::rlimit(100)]
    pub fn process(&mut self, samples: &Vec<i32>)
        requires
            old(self).wf(),
            valid_frame(samples@),
            samples@.len() <= 0x4000_0000,
        ensures
            final(self).wf(),
            spec_vad_step(*old(self), *final(self), samples@),
    {
        let ghost pre = *old(self);
        let n = samples.len();
        let n64 = n as u64;

        // Push the frame into the lookback ring; the wrap flag follows the
        // write position crossing the seam.
        let cap = self.lookback_buffer.capacity();
        let pos = self.lookback_buffer.write_position();
        if n64 >= cap as u64 - pos as u64 {
            self.lookback_filled = true;
        }
        self.lookback_buffer.write(samples);

        // Extract and store the frame features.
        let f = extract_features(samples, self.sample_rate);
        proof {
            crate::features::lemma_crossings_bounded(samples@);
            crate::features::lemma_rms_bounded(samples@);
        }
        self.last_rms_q15 = f.rms_q15;
        self.last_zcr_milli = if n < 2 {
            0
        } else {
            proof {
                assert(f.crossings as int * 1000 / (n as int - 1) <= 1000) by (nonlinear_arith)
                    requires
                        0 <= f.crossings as int <= n as int - 1,
                        n as int >= 2,
                ;
            }
            ((f.crossings * 1000) / (n64 - 1)) as u32
        };
        self.last_centroid_hz = f.centroid_hz;

        let is_voiced = n >= 2 && f.rms_q15 >= VOICED_RMS_FLOOR_Q15 && 100 * f.crossings >= n64
            - 1 && 10 * f.crossings <= 3 * (n64 - 1) && 200 <= f.centroid_hz && f.centroid_hz
            <= 5500;
        let is_whisper = n >= 2 && f.rms_q15 >= WHISPER_RMS_FLOOR_Q15 && 25 * f.crossings >= 2 * (
        n64 - 1) && 20 * f.crossings <= 9 * (n64 - 1) && 300 <= f.centroid_hz && f.centroid_hz
            <= 7000;
        let is_transient = n >= 2 && 20 * f.crossings > 9 * (n64 - 1) && f.centroid_hz > 6500;
        proof {
            let rate = self.sample_rate as int;
            assert(is_voiced == spec_matches_voiced(samples@, rate));
            assert(is_whisper == spec_matches_whisper(samples@, rate));
            assert(is_transient == spec_is_transient(samples@, rate));
        }
        self.last_is_transient = is_transient;
        self.last_lookback_offset_ms = None;
        self.last_is_word_break = false;
        self.last_state_change = SpeechStateChange::NoChange;
        self.last_word_break_event = None;

        if !self.initialized {
            self.initialized = true;
            return ;
        }

        // Transient rejection: clear any pending onset; outside speech the
        // frame is otherwise ignored.
        if is_transient {
            self.is_pending_voiced = false;
            self.is_pending_whisper = false;
            self.voiced_onset_count = 0;
            self.whisper_onset_count = 0;
            self.voiced_grace_count = 0;
            self.whisper_grace_count = 0;
            if !self.is_speaking {
                return ;
            }
        }

        if is_voiced || is_whisper {
            if self.is_speaking {
                self.vad_candidate_speaking(f, Ghost(samples@), Ghost(pre));
            } else {
                self.vad_candidate_onset(f, is_voiced, is_whisper, Ghost(samples@), Ghost(pre));
            }
        } else {
            self.vad_noncandidate(f, is_transient, Ghost(samples@), Ghost(pre));
        }
    }

    /// A speech-matching frame while speaking: extend the segment and the
    /// rolling amplitude average, and close an open word-break gap.
    #[verifier::spinoff_prover]
    #[verifier::rlimit(100)]
    fn vad_candidate_speaking(
        &mut self,
        f: FrameFeatures,
        Ghost(frame): Ghost<Seq<i32>>,
        Ghost(pre): Ghost<SpeechDetector>,
    )
        requires
            old(self).wf(),
            valid_frame(frame),
            frame.len() <= 0x4000_0000,
            f.spec_of(frame, old(self).sample_rate as int),
            old(self).is_speaking,
            spec_matches_voiced(frame, old(self).sample_rate as int) || spec_matches_whisper(
                frame,
                old(self).sample_rate as int,
            ),
            spec_core_eq(pre, *old(self)),
            old(self).last_state_change == SpeechStateChange::NoChange,
            old(self).last_word_break_event is None,
            old(self).last_lookback_offset_ms is None,
            !old(self).last_is_word_break,
        ensures
            final(self).wf(),
            spec_frame_fields_eq(*old(self), *final(self)),
            spec_vad_step_speaking_candidate(pre, *final(self), frame),
    {
        let n64 = f.len as u64;
        proof {
            assert(self.recent_speech_window_samples <= 100000);
            crate::features::lemma_rms_bounded(frame);
            crate::features::lemma_crossings_bounded(frame);
        }
        self.silence_sample_count = 0;
        self.speech_sample_count = if u64::MAX - self.speech_sample_count >= n64 {
            self.speech_sample_count + n64
        } else {
            u64::MAX
        };

        // Rolling speech-amplitude average, clamped to its window.
        proof {
            assert(f.rms_q15 as int * n64 as int <= n64 as int * 32768 && f.rms_q15 as int
                * n64 as int <= 0x40000000 * 32768) by (nonlinear_arith)
                requires
                    0 <= f.rms_q15 <= 32768,
                    0 <= n64 <= 0x40000000,
            ;
            assert(self.recent_speech_amplitude_sum <= 100000 * 32768) by (nonlinear_arith)
                requires
                    self.recent_speech_amplitude_sum as int
                        <= self.recent_speech_amplitude_count as int * 32768,
                    self.recent_speech_amplitude_count <= 100000,
            ;
        }
        let add = f.rms_q15 as u64 * n64;
        let sum1 = self.recent_speech_amplitude_sum + add;
        let cnt1 = self.recent_speech_amplitude_count + n64;
        proof {
            assert(sum1 as int <= cnt1 as int * 32768) by (nonlinear_arith)
                requires
                    self.recent_speech_amplitude_sum as int
                        <= self.recent_speech_amplitude_count as int * 32768,
                    add as int == f.rms_q15 as int * n64 as int,
                    f.rms_q15 as int * n64 as int <= n64 as int * 32768,
                    sum1 == self.recent_speech_amplitude_sum + add,
                    cnt1 == self.recent_speech_amplitude_count + n64,
            ;
        }
        if cnt1 > self.recent_speech_window_samples {
            let window = self.recent_speech_window_samples;
            proof {
                assert(sum1 as int * window as int <= 0x400000000000 * 100000)
                    by (nonlinear_arith)
                    requires
                        0 <= sum1 as int <= 0x400000000000,
                        0 <= window as int <= 100000,
                ;
                assert(sum1 as int * window as int / cnt1 as int <= window as int * 32768)
                    by (nonlinear_arith)
                    requires
                        sum1 as int <= cnt1 as int * 32768,
                        cnt1 as int >= 1,
                        window as int >= 0,
                ;
            }
            let scaled = ((sum1 as u128 * window as u128) / cnt1 as u128) as u64;
            self.recent_speech_amplitude_sum = scaled;
            self.recent_speech_amplitude_count = window;
        } else {
            self.recent_speech_amplitude_sum = sum1;
            self.recent_speech_amplitude_count = cnt1;
        }

        // Close an open word-break gap; report it when its length lies
        // within the word-break range.
        if self.in_word_break {
            if self.word_break_sample_count >= self.min_word_break_samples
                && self.word_break_sample_count <= self.max_word_break_samples {
                let offset_ms = self.samples_to_ms_u32(self.word_break_start_speech_samples);
                let gap_duration_ms = self.samples_to_ms_u32(self.word_break_sample_count);
                self.last_word_break_event = Some(WordBreakEvent { offset_ms, gap_duration_ms });
            }
            self.in_word_break = false;
            self.word_break_sample_count = 0;
        }
    }

    /// A speech-matching frame outside speech: accumulate the per-mode
    /// onsets; confirm speech and scan the lookback ring once an onset time
    /// is reached, the voiced mode first.
    #[verifier::spinoff_prover]
    #[verifier::rlimit(100)]
    fn vad_candidate_onset(
        &mut self,
        f: FrameFeatures,
        is_voiced: bool,
        is_whisper: bool,
        Ghost(frame): Ghost<Seq<i32>>,
        Ghost(pre): Ghost<SpeechDetector>,
    )
        requires
            old(self).wf(),
            valid_frame(frame),
            frame.len() <= 0x4000_0000,
            f.spec_of(frame, old(self).sample_rate as int),
            !old(self).is_speaking,
            is_voiced == spec_matches_voiced(frame, old(self).sample_rate as int),
            is_whisper == spec_matches_whisper(frame, old(self).sample_rate as int),
            is_voiced || is_whisper,
            spec_core_eq(pre, *old(self)),
            old(self).last_state_change == SpeechStateChange::NoChange,
            old(self).last_word_break_event is None,
            old(self).last_lookback_offset_ms is None,
            !old(self).last_is_word_break,
        ensures
            final(self).wf(),
            spec_frame_fields_eq(*old(self), *final(self)),
            spec_vad_step_onset(pre, *final(self), frame),
    {
        let n64 = f.len as u64;
        proof {
            assert(self.voiced_onset_samples <= 80000);
            assert(self.whisper_onset_samples <= 120000);
        }
        self.silence_sample_count = 0;
        if is_voiced {
            self.voiced_grace_count = 0;
            if !self.is_pending_voiced {
                self.is_pending_voiced = true;
                self.voiced_onset_count = n64;
            } else {
                self.voiced_onset_count = self.voiced_onset_count + n64;
            }
            if self.voiced_onset_count >= self.voiced_onset_samples {
                self.is_speaking = true;
                self.speech_sample_count = self.voiced_onset_count;
                self.is_pending_voiced = false;
                self.is_pending_whisper = false;
                self.voiced_onset_count = 0;
                self.whisper_onset_count = 0;
                self.voiced_grace_count = 0;
                self.whisper_grace_count = 0;
                let lookback = self.find_lookback_start();
                self.last_lookback_offset_ms = Some(lookback.1);
                self.last_state_change = SpeechStateChange::Started {
                    lookback_samples: lookback.0,
                };
                return ;
            }
        }
        if is_whisper {
            self.whisper_grace_count = 0;
            if !self.is_pending_whisper {
                self.is_pending_whisper = true;
                self.whisper_onset_count = n64;
            } else {
                self.whisper_onset_count = self.whisper_onset_count + n64;
            }
            if self.whisper_onset_count >= self.whisper_onset_samples {
                self.is_speaking = true;
                self.speech_sample_count = self.whisper_onset_count;
                self.is_pending_voiced = false;
                self.is_pending_whisper = false;
                self.voiced_onset_count = 0;
                self.whisper_onset_count = 0;
                self.voiced_grace_count = 0;
                self.whisper_grace_count = 0;
                let lookback = self.find_lookback_start();
                self.last_lookback_offset_ms = Some(lookback.1);
                self.last_state_change = SpeechStateChange::Started {
                    lookback_samples: lookback.0,
                };
            }
        }
    }

    /// A frame matching no speech mode: consume onset grace; while
    /// speaking, count silence, track sub-average gaps, and end speech at
    /// the silence hold.
    #[verifier::spinoff_prover]
    #[verifier::rlimit(100)]
    fn vad_noncandidate(
        &mut self,
        f: FrameFeatures,
        is_transient: bool,
        Ghost(frame): Ghost<Seq<i32>>,
        Ghost(pre): Ghost<SpeechDetector>,
    )
        requires
            old(self).wf(),
            valid_frame(frame),
            frame.len() <= 0x4000_0000,
            f.spec_of(frame, old(self).sample_rate as int),
            !spec_matches_voiced(frame, old(self).sample_rate as int),
            !spec_matches_whisper(frame, old(self).sample_rate as int),
            is_transient == spec_is_transient(frame, old(self).sample_rate as int),
            is_transient ==> old(self).is_speaking,
            // The caller has already applied the transient onset reset.
            old(self).is_pending_voiced == (if is_transient {
                false
            } else {
                pre.is_pending_voiced
            }),
            old(self).is_pending_whisper == (if is_transient {
                false
            } else {
                pre.is_pending_whisper
            }),
            old(self).voiced_onset_count as int == (if is_transient {
                0int
            } else {
                pre.voiced_onset_count as int
            }),
            old(self).whisper_onset_count as int == (if is_transient {
                0int
            } else {
                pre.whisper_onset_count as int
            }),
            old(self).voiced_grace_count as int == (if is_transient {
                0int
            } else {
                pre.voiced_grace_count as int
            }),
            old(self).whisper_grace_count as int == (if is_transient {
                0int
            } else {
                pre.whisper_grace_count as int
            }),
            old(self).sample_rate == pre.sample_rate,
            old(self).voiced_onset_samples == pre.voiced_onset_samples,
            old(self).whisper_onset_samples == pre.whisper_onset_samples,
            old(self).hold_samples == pre.hold_samples,
            old(self).onset_grace_samples == pre.onset_grace_samples,
            old(self).min_word_break_samples == pre.min_word_break_samples,
            old(self).max_word_break_samples == pre.max_word_break_samples,
            old(self).recent_speech_window_samples == pre.recent_speech_window_samples,
            old(self).lookback_margin_samples == pre.lookback_margin_samples,
            old(self).is_speaking == pre.is_speaking,
            old(self).silence_sample_count == pre.silence_sample_count,
            old(self).speech_sample_count == pre.speech_sample_count,
            old(self).recent_speech_amplitude_sum == pre.recent_speech_amplitude_sum,
            old(self).recent_speech_amplitude_count == pre.recent_speech_amplitude_count,
            old(self).in_word_break == pre.in_word_break,
            old(self).word_break_sample_count == pre.word_break_sample_count,
            old(self).word_break_start_speech_samples == pre.word_break_start_speech_samples,
            old(self).last_state_change == SpeechStateChange::NoChange,
            old(self).last_word_break_event is None,
            old(self).last_lookback_offset_ms is None,
            !old(self).last_is_word_break,
        ensures
            final(self).wf(),
            spec_frame_fields_eq(*old(self), *final(self)),
            spec_vad_step_noncandidate(pre, *final(self), frame),
    {
        let n64 = f.len as u64;
        proof {
            assert(self.onset_grace_samples <= 30000);
            assert(self.hold_samples <= 300000);
            crate::features::lemma_rms_bounded(frame);
        }
        if self.is_pending_voiced {
            self.voiced_grace_count = self.voiced_grace_count + n64;
            if self.voiced_grace_count >= self.onset_grace_samples {
                self.is_pending_voiced = false;
                self.voiced_onset_count = 0;
                self.voiced_grace_count = 0;
            }
        }
        if self.is_pending_whisper {
            self.whisper_grace_count = self.whisper_grace_count + n64;
            if self.whisper_grace_count >= self.onset_grace_samples {
                self.is_pending_whisper = false;
                self.whisper_onset_count = 0;
                self.whisper_grace_count = 0;
            }
        }

        if self.is_speaking {
            self.silence_sample_count = self.silence_sample_count + n64;

            // Word-break tracking: a sub-average frame opens or extends a
            // gap.
            let avg = if self.recent_speech_amplitude_count == 0 {
                0
            } else {
                self.recent_speech_amplitude_sum / self.recent_speech_amplitude_count
            };
            if avg > 0 && 2 * (f.rms_q15 as u64) < avg {
                if !self.in_word_break {
                    self.in_word_break = true;
                    self.word_break_sample_count = n64;
                    self.word_break_start_speech_samples = self.speech_sample_count;
                } else {
                    self.word_break_sample_count = self.word_break_sample_count + n64;
                }
                if self.word_break_sample_count >= self.min_word_break_samples
                    && self.word_break_sample_count <= self.max_word_break_samples {
                    self.last_is_word_break = true;
                }
            }

            // Silence hold: end speech.
            if self.silence_sample_count >= self.hold_samples {
                let duration_ms = self.samples_to_ms(self.speech_sample_count);
                self.is_speaking = false;
                self.speech_sample_count = 0;
                self.in_word_break = false;
                self.word_break_sample_count = 0;
                self.word_break_start_speech_samples = 0;
                self.recent_speech_amplitude_sum = 0;
                self.recent_speech_amplitude_count = 0;
                self.last_is_word_break = false;
                self.last_word_break_event = None;
                self.last_state_change = SpeechStateChange::Ended { duration_ms };
            }
        }
    }
}

/// Transient rejection: outside speech, a frame whose zero-crossing rate
/// and centroid mark it as an impulsive transient never starts speech — it
/// produces no state change, leaves the detector out of speech, and clears
/// every pending onset.
pub proof fn lemma_transient_rejection(
    pre: SpeechDetector,
    post: SpeechDetector,
    frame: Seq<i32>,
)
    requires
        pre.initialized,
        !pre.is_speaking,
        spec_is_transient(frame, pre.sample_rate as int),
        spec_vad_step(pre, post, frame),
    ensures
        post.last_state_change == SpeechStateChange::NoChange,
        !post.is_speaking,
        !post.is_pending_voiced,
        !post.is_pending_whisper,
        post.voiced_onset_count == 0,
        post.whisper_onset_count == 0,
{
    let n = frame.len() as int;
    let cr = spec_crossings(frame);
    assert(!spec_matches_voiced(frame, pre.sample_rate as int));
    assert(!spec_matches_whisper(frame, pre.sample_rate as int));
}

/// Hysteresis: a start can only come out of silence and turns the detector
/// to speaking; an end can only come while speaking and turns it off; a
/// frame with no state change leaves the speaking flag alone. Along any run
/// of frames the two events therefore alternate, beginning with a start, at
/// most one per frame — a burst of voiced frames yields exactly one start,
/// and a run of silence exactly one end.
pub proof fn lemma_hysteresis_alternation(
    pre: SpeechDetector,
    post: SpeechDetector,
    frame: Seq<i32>,
)
    requires
        spec_vad_step(pre, post, frame),
    ensures
        post.last_state_change matches SpeechStateChange::Started { .. } ==> !pre.is_speaking
            && post.is_speaking,
        post.last_state_change matches SpeechStateChange::Ended { .. } ==> pre.is_speaking
            && !post.is_speaking,
        post.last_state_change == SpeechStateChange::NoChange ==> post.is_speaking
            == pre.is_speaking,
{
}

} // verus!
