//! Capture mixer: stream routing, 10 ms chunking, echo-cancellation
//! ordering, and output combination.
//!
//! With a single stream every frame passes through unchanged. With two
//! streams, render audio is split into 10 ms chunks to be handed to the
//! echo canceller the moment it arrives, capture audio is buffered, and a
//! capture chunk is released only when a render chunk is available to pair
//! with it — which makes the render-before-capture ordering unconditional.
//! The echo canceller itself runs outside this module; the mixer hands out
//! the chunks to feed and to process, and combines the processed chunk with
//! the render chunk according to the recording mode.

use vstd::prelude::*;

use crate::sample::{tdiv, valid_frame, valid_sample, SAMPLE_UNIT};
use crate::types::RecordingMode;

verus! {

/// Samples per channel of one 10 ms chunk at 48 kHz.
pub const AEC_FRAME_SAMPLES: usize = 480;

/// One frame of interleaved fixed-point audio.
#[derive(Debug, Clone)]
pub struct AudioFrame {
    /// Interleaved samples.
    pub samples: Vec<i32>,
    /// Number of channels (one or two).
    pub channels: u16,
}

/// Fixed-point factor of `e^(-1)`: `exp(-1) * 32768`, rounded down.
pub const EXP_NEG_ONE_Q15: u64 = 12055;

/// Fixed-point `32768 * e^(-f/32768)` for `0 <= f < 32768`, by a
/// fourth-order series.
pub open spec fn spec_exp_poly(f: int) -> int {
    32768 - f + f * f / 65536 - f * f * f / 6442450944 + f * f * f * f / 844424930131968
}

/// Fixed-point `32768 * e^(-t/32768)` for `t >= 0`: the series on the
/// fractional part, multiplied down by `e^(-1)` per whole unit.
pub open spec fn spec_exp_neg_q15(t: int) -> int
    decreases t,
{
    if t < 32768 {
        spec_exp_poly(if t < 0 {
            0
        } else {
            t
        })
    } else {
        spec_exp_neg_q15(t - 32768) * EXP_NEG_ONE_Q15 as int / 32768
    }
}

/// Soft clip of a fixed-point sample sum: the identity within full scale,
/// and `1 - e^(-2(x-1))/2` (symmetrically below `-1`) beyond it.
pub open spec fn spec_soft_clip(x: int) -> int {
    if x > SAMPLE_UNIT as int {
        SAMPLE_UNIT as int - spec_exp_neg_q15(2 * (x - SAMPLE_UNIT as int)) / 2
    } else if x < -(SAMPLE_UNIT as int) {
        -(SAMPLE_UNIT as int) + spec_exp_neg_q15(2 * (-x - SAMPLE_UNIT as int)) / 2
    } else {
        x
    }
}

/// The series value stays within `[0, 32768]` on its domain.
proof fn lemma_exp_poly_bounds(f: int)
    requires
        0 <= f <= 32768,
    ensures
        0 <= spec_exp_poly(f) <= 32768,
{
    let t2 = f * f / 65536;
    let t3 = f * f * f / 6442450944;
    let t4 = f * f * f * f / 844424930131968;
    assert(0 <= t2 && t2 <= f / 2 && 0 <= t3 && t3 <= t2 && 0 <= t4 && t4 <= f / 8)
        by (nonlinear_arith)
        requires
            0 <= f <= 32768,
            t2 == f * f / 65536,
            t3 == f * f * f / 6442450944,
            t4 == f * f * f * f / 844424930131968,
    ;
}

/// The fixed-point exponential stays within `[0, 32768]`.
proof fn lemma_exp_neg_bounds(t: int)
    requires
        t >= 0,
    ensures
        0 <= spec_exp_neg_q15(t) <= 32768,
    decreases t,
{
    if t < 32768 {
        lemma_exp_poly_bounds(t);
    } else {
        lemma_exp_neg_bounds(t - 32768);
        assert(0 <= spec_exp_neg_q15(t - 32768) * EXP_NEG_ONE_Q15 as int / 32768 <= 32768)
            by (nonlinear_arith)
            requires
                0 <= spec_exp_neg_q15(t - 32768) <= 32768,
    ;
    }
}

/// The soft clip maps any sum of two full-scale samples back into full
/// scale, and is the identity within full scale.
pub proof fn lemma_soft_clip_bounds(x: int)
    ensures
        -(SAMPLE_UNIT as int) <= x <= SAMPLE_UNIT as int ==> spec_soft_clip(x) == x,
        x > SAMPLE_UNIT as int ==> SAMPLE_UNIT as int / 2 <= spec_soft_clip(x) <= SAMPLE_UNIT
            as int,
        x < -(SAMPLE_UNIT as int) ==> -(SAMPLE_UNIT as int) <= spec_soft_clip(x) <= -(
        SAMPLE_UNIT as int) / 2,
{
    if x > SAMPLE_UNIT as int {
        lemma_exp_neg_bounds(2 * (x - SAMPLE_UNIT as int));
    }
    if x < -(SAMPLE_UNIT as int) {
        lemma_exp_neg_bounds(2 * (-x - SAMPLE_UNIT as int));
    }
}

/// Fixed-point `32768 * e^(-t/32768)`.
fn exp_neg_q15(t: u64) -> (r: u64)
    ensures
        r as int == spec_exp_neg_q15(t as int),
        r <= 32768,
{
    let mut whole: u64 = t / 32768;
    let f: u64 = t % 32768;
    proof {
        lemma_exp_poly_bounds(f as int);
        assert(f as int * f as int <= 32768 * 32768 && f as int * f as int * f as int <= 32768
            * 32768 * 32768) by (nonlinear_arith)
            requires
                0 <= f as int <= 32768,
        ;
        assert(f as int * f as int * f as int * f as int <= 0x1000000000000000000int && f
            as int * f as int * f as int * f as int / 844424930131968 <= 32768)
            by (nonlinear_arith)
            requires
                0 <= f as int <= 32768,
        ;
        assert(0 <= f as int * f as int / 65536 <= f as int / 2 && f as int * f as int * f
            as int / 6442450944 <= f as int * f as int / 65536 && f as int * f as int * f
            as int * f as int / 844424930131968 <= f as int / 8) by (nonlinear_arith)
            requires
                0 <= f as int <= 32768,
        ;
    }
    let f2: u64 = (f * f) / 65536;
    let f3: u64 = (f * f * f) / 6442450944;
    let f4: u64 = ((f as u128 * f as u128 * f as u128 * f as u128) / 844424930131968) as u64;
    let mut r: u64 = 32768 - f + f2 - f3 + f4;
    proof {
        assert(t as int % 32768 == t as int - (t as int / 32768) * 32768) by (nonlinear_arith);
    }
    let ghost mut remaining: int = f as int;
    while whole > 0
        invariant
            r <= 32768,
            remaining >= 0,
            r as int == spec_exp_neg_q15(remaining),
            remaining + whole as int * 32768 == t as int,
        decreases whole,
    {
        proof {
            assert(spec_exp_neg_q15(remaining + 32768) == spec_exp_neg_q15(remaining)
                * EXP_NEG_ONE_Q15 as int / 32768);
            assert(r as int * EXP_NEG_ONE_Q15 as int / 32768 <= 32768
                && r as int * EXP_NEG_ONE_Q15 as int <= 32768 * EXP_NEG_ONE_Q15 as int)
                by (nonlinear_arith)
                requires
                    0 <= r as int <= 32768,
            ;
        }
        r = (r * EXP_NEG_ONE_Q15) / 32768;
        proof {
            remaining = remaining + 32768;
        }
        whole = whole - 1;
    }
    r
}

/// Soft clip of a fixed-point sample sum.
pub fn soft_clip(x: i32) -> (r: i32)
    requires
        -(2 * SAMPLE_UNIT as int) <= x <= 2 * SAMPLE_UNIT as int,
    ensures
        r as int == spec_soft_clip(x as int),
        valid_sample(r),
{
    proof {
        lemma_soft_clip_bounds(x as int);
    }
    if x > SAMPLE_UNIT {
        let t: u64 = 2 * ((x - SAMPLE_UNIT) as u64);
        let e = exp_neg_q15(t);
        SAMPLE_UNIT - (e / 2) as i32
    } else if x < -SAMPLE_UNIT {
        let t: u64 = 2 * ((-(x as i64) - SAMPLE_UNIT as i64) as u64);
        let e = exp_neg_q15(t);
        -SAMPLE_UNIT + (e / 2) as i32
    } else {
        x
    }
}

/// Append the samples of `src` to `dst`.
fn vec_extend(dst: &mut Vec<i32>, src: &Vec<i32>)
    ensures
        final(dst)@ == old(dst)@ + src@,
{
    let mut i: usize = 0;
    proof {
        assert(old(dst)@ + src@.take(0) =~= old(dst)@);
    }
    while i < src.len()
        invariant
            i <= src@.len(),
            dst@ == old(dst)@ + src@.take(i as int),
        decreases src@.len() - i,
    {
        dst.push(src[i]);
        proof {
            assert(old(dst)@ + src@.take(i as int + 1) =~= (old(dst)@ + src@.take(
                i as int,
            )).push(src@[i as int]));
        }
        i += 1;
    }
    proof {
        assert(src@.take(src@.len() as int) =~= src@);
    }
}

/// Remove and return the first `k` samples of `v`.
fn vec_take_prefix(v: &mut Vec<i32>, k: usize) -> (r: Vec<i32>)
    requires
        k <= old(v)@.len(),
    ensures
        r@ == old(v)@.take(k as int),
        final(v)@ == old(v)@.skip(k as int),
{
    let mut prefix: Vec<i32> = Vec::new();
    let mut i: usize = 0;
    while i < k
        invariant
            i <= k <= v@.len(),
            v@ == old(v)@,
            prefix@ == old(v)@.take(i as int),
        decreases k - i,
    {
        prefix.push(v[i]);
        proof {
            assert(old(v)@.take(i as int + 1) =~= old(v)@.take(i as int).push(
                old(v)@[i as int],
            ));
        }
        i += 1;
    }
    let mut rest: Vec<i32> = Vec::new();
    let mut j: usize = k;
    while j < v.len()
        invariant
            k <= j <= v@.len(),
            v@ == old(v)@,
            rest@ == old(v)@.subrange(k as int, j as int),
        decreases v@.len() - j,
    {
        rest.push(v[j]);
        proof {
            assert(old(v)@.subrange(k as int, j as int + 1) =~= old(v)@.subrange(
                k as int,
                j as int,
            ).push(old(v)@[j as int]));
        }
        j += 1;
    }
    proof {
        assert(old(v)@.subrange(k as int, old(v)@.len() as int) =~= old(v)@.skip(k as int));
    }
    *v = rest;
    prefix
}

/// The capture mixer. The echo canceller itself runs outside: the mixer
/// hands back the render chunks to feed to it the moment they arrive, pairs
/// capture chunks with render chunks, and combines a processed capture
/// chunk with its render chunk according to the recording mode.
pub struct AudioMixer {
    /// Buffered capture (microphone) samples awaiting pairing.
    pub capture_buffer: Vec<i32>,
    /// Render samples not yet chunked for the echo canceller.
    pub render_buffer: Vec<i32>,
    /// Render samples kept for pairing and mixing.
    pub render_mix_buffer: Vec<i32>,
    /// Number of active streams: zero, one, or two.
    pub num_streams: usize,
    /// Channels per stream (one or two).
    pub channels: u16,
    /// Whether echo cancellation is applied to capture chunks.
    pub aec_enabled: bool,
    /// How the two streams are combined.
    pub recording_mode: RecordingMode,
    /// Total render samples received while in two-stream mode.
    pub renders_received: Ghost<int>,
    /// Render chunks handed out for the echo canceller, in order.
    pub renders_fed: Ghost<int>,
    /// Capture chunks paired and released for processing.
    pub captures_processed: Ghost<int>,
}

impl AudioMixer {
    /// Samples per 10 ms chunk across all channels.
    pub open spec fn spec_frame_size(self) -> int {
        AEC_FRAME_SAMPLES as int * self.channels as int
    }

    /// Structural invariant. Its heart is the render-before-capture
    /// ordering: every render chunk is handed out for the echo canceller as
    /// soon as it is complete, so the number of capture chunks released
    /// never exceeds the number of render chunks already handed out.
    pub open spec fn wf(self) -> bool {
        let frame = self.spec_frame_size();
        &&& 1 <= self.channels <= 2
        &&& self.num_streams <= 2
        &&& valid_frame(self.capture_buffer@)
        &&& valid_frame(self.render_buffer@)
        &&& valid_frame(self.render_mix_buffer@)
        &&& (self.num_streams == 2 ==> {
            &&& self.render_buffer@.len() < frame
            &&& self.renders_fed@ * frame == self.renders_received@
                - self.render_buffer@.len()
            &&& self.captures_processed@ * frame + self.render_mix_buffer@.len()
                == self.renders_received@
            &&& 0 <= self.captures_processed@ <= self.renders_fed@
            &&& 0 <= self.renders_received@
        })
        &&& (self.num_streams != 2 ==> {
            &&& self.capture_buffer@.len() == 0
            &&& self.render_buffer@.len() == 0
            &&& self.render_mix_buffer@.len() == 0
            &&& self.renders_received@ == 0
            &&& self.renders_fed@ == 0
            &&& self.captures_processed@ == 0
        })
    }

    /// Create an inactive stereo mixer with echo cancellation off.
    pub fn new() -> (r: Self)
        ensures
            r.wf(),
            r.num_streams == 0,
            r.channels == 2u16,
            !r.aec_enabled,
            r.recording_mode == RecordingMode::Mixed,
    {
        AudioMixer {
            capture_buffer: Vec::new(),
            render_buffer: Vec::new(),
            render_mix_buffer: Vec::new(),
            num_streams: 0,
            channels: 2,
            aec_enabled: false,
            recording_mode: RecordingMode::Mixed,
            renders_received: Ghost(0),
            renders_fed: Ghost(0),
            captures_processed: Ghost(0),
        }
    }

    /// Set the number of active streams, clearing all buffered audio.
    pub fn set_num_streams(&mut self, num: usize)
        requires
            old(self).wf(),
            num <= 2,
        ensures
            final(self).wf(),
            final(self).num_streams == num,
            final(self).channels == old(self).channels,
            final(self).aec_enabled == old(self).aec_enabled,
            final(self).recording_mode == old(self).recording_mode,
            final(self).capture_buffer@.len() == 0,
            final(self).render_buffer@.len() == 0,
            final(self).render_mix_buffer@.len() == 0,
            final(self).captures_processed@ == 0,
            final(self).renders_fed@ == 0,
    {
        self.num_streams = num;
        self.capture_buffer = Vec::new();
        self.render_buffer = Vec::new();
        self.render_mix_buffer = Vec::new();
        self.renders_received = Ghost(0);
        self.renders_fed = Ghost(0);
        self.captures_processed = Ghost(0);
    }

    /// Set the per-stream channel count, clearing all buffered audio.
    pub fn set_channels(&mut self, channels: u16)
        requires
            old(self).wf(),
            1 <= channels <= 2,
        ensures
            final(self).wf(),
            final(self).channels == channels,
            final(self).num_streams == old(self).num_streams,
            final(self).aec_enabled == old(self).aec_enabled,
            final(self).recording_mode == old(self).recording_mode,
            final(self).capture_buffer@.len() == 0,
            final(self).render_buffer@.len() == 0,
            final(self).render_mix_buffer@.len() == 0,
            final(self).renders_received@ == 0,
            final(self).renders_fed@ == 0,
            final(self).captures_processed@ == 0,
    {
        self.channels = channels;
        self.capture_buffer = Vec::new();
        self.render_buffer = Vec::new();
        self.render_mix_buffer = Vec::new();
        self.renders_received = Ghost(0);
        self.renders_fed = Ghost(0);
        self.captures_processed = Ghost(0);
    }

    /// Enable or disable echo cancellation for future chunks.
    pub fn set_aec_enabled(&mut self, enabled: bool)
        requires
            old(self).wf(),
        ensures
            final(self).wf(),
            *final(self) == (AudioMixer { aec_enabled: enabled, ..*old(self) }),
    {
        self.aec_enabled = enabled;
    }

    /// Set the recording mode for future chunks.
    pub fn set_recording_mode(&mut self, mode: RecordingMode)
        requires
            old(self).wf(),
        ensures
            final(self).wf(),
            *final(self) == (AudioMixer { recording_mode: mode, ..*old(self) }),
    {
        self.recording_mode = mode;
    }

    /// Push samples from a stream.
    ///
    /// With zero streams the frame is dropped. With one stream it is
    /// re-emitted unchanged. With two streams, render samples are buffered
    /// on both render paths and every complete render chunk is returned for
    /// the echo canceller immediately; capture samples are only buffered,
    /// to be released by [`Self::take_ready_pair`].
    ///
    /// Returns the frames to emit downstream and the render chunks to hand
    /// to the echo canceller, in arrival order.
    pub fn push_samples(&mut self, samples: &Vec<i32>, is_render: bool) -> (r: (
        Vec<AudioFrame>,
        Vec<Vec<i32>>,
    ))
        requires
            old(self).wf(),
            valid_frame(samples@),
        ensures
            final(self).wf(),
            final(self).num_streams == old(self).num_streams,
            final(self).channels == old(self).channels,
            final(self).aec_enabled == old(self).aec_enabled,
            final(self).recording_mode == old(self).recording_mode,
            old(self).num_streams == 0 ==> *final(self) == *old(self) && r.0@.len() == 0
                && r.1@.len() == 0,
            old(self).num_streams == 1 ==> *final(self) == *old(self) && r.1@.len() == 0
                && r.0@.len() == 1 && r.0@[0].samples@ == samples@ && r.0@[0].channels == old(self).channels,
            old(self).num_streams == 2 && is_render ==> spec_render_push(
                *old(self),
                *final(self),
                samples@,
                r.1@,
            ) && r.0@.len() == 0,
            old(self).num_streams == 2 && !is_render ==> {
                &&& r.0@.len() == 0
                &&& r.1@.len() == 0
                &&& final(self).capture_buffer@ == old(self).capture_buffer@ + samples@
                &&& final(self).render_buffer@ == old(self).render_buffer@
                &&& final(self).render_mix_buffer@ == old(self).render_mix_buffer@
                &&& final(self).renders_fed@ == old(self).renders_fed@
                &&& final(self).captures_processed@ == old(self).captures_processed@
            },
    {
        if self.num_streams == 0 {
            return (Vec::new(), Vec::new());
        }
        if self.num_streams == 1 {
            let mut copy: Vec<i32> = Vec::new();
            vec_extend(&mut copy, samples);
            proof {
                assert(copy@ =~= samples@);
            }
            let mut frames: Vec<AudioFrame> = Vec::new();
            frames.push(AudioFrame { samples: copy, channels: self.channels });
            return (frames, Vec::new());
        }

        let frame_size: usize = AEC_FRAME_SAMPLES * self.channels as usize;
        if is_render {
            let ghost total = self.render_buffer@ + samples@;
            vec_extend(&mut self.render_buffer, samples);
            self.render_mix_buffer.reserve(samples.len());
            vec_extend(&mut self.render_mix_buffer, samples);
            proof {
                self.renders_received@ = self.renders_received@ + samples@.len();
            }
            let mut to_feed: Vec<Vec<i32>> = Vec::new();
            let ghost fed0 = self.renders_fed@;
            while self.render_buffer.len() >= frame_size
                invariant
                    frame_size == self.spec_frame_size(),
                    frame_size >= 1,
                    valid_frame(self.render_buffer@),
                    to_feed@.len() == self.renders_fed@ - fed0,
                    self.renders_fed@ >= fed0,
                    self.render_buffer@ == total.skip(
                        (self.renders_fed@ - fed0) * frame_size as int,
                    ),
                    0 <= (self.renders_fed@ - fed0) * frame_size as int <= total.len(),
                    forall|j: int|
                        0 <= j < to_feed@.len() ==> to_feed@[j]@ == total.subrange(
                            j * frame_size as int,
                            (j + 1) * frame_size as int,
                        ),
                    spec_render_push_frozen(*old(self), *self, samples@),
                decreases self.render_buffer@.len(),
            {
                let ghost k = self.renders_fed@ - fed0;
                let chunk = vec_take_prefix(&mut self.render_buffer, frame_size);
                proof {
                    self.renders_fed@ = self.renders_fed@ + 1;
                    lemma_skip_chunk(total, k, frame_size as int);
                }
                to_feed.push(chunk);
            }
            proof {
                lemma_drain_complete(
                    total,
                    self.renders_fed@ - fed0,
                    frame_size as int,
                    self.render_buffer@.len() as int,
                );
                let frame = frame_size as int;
                let k = self.renders_fed@ - fed0;
                assert((fed0 + k) * frame == fed0 * frame + k * frame) by (nonlinear_arith);
                assert(valid_frame(total)) by {
                    assert(forall|i: int|
                        0 <= i < total.len() ==> valid_sample(
                            #[trigger] total[i],
                        ));
                }
                assert(forall|i: int|
                    0 <= i < self.render_buffer@.len() ==> valid_sample(
                        #[trigger] self.render_buffer@[i],
                    ));
                assert(forall|i: int|
                    0 <= i < self.render_mix_buffer@.len() ==> valid_sample(
                        #[trigger] self.render_mix_buffer@[i],
                    ));
            }
            return (Vec::new(), to_feed);
        }
        vec_extend(&mut self.capture_buffer, samples);
        (Vec::new(), Vec::new())
    }

    /// Release one 10 ms capture chunk together with its render chunk, when
    /// both are available. The returned capture chunk is the oldest buffered
    /// capture audio; the render chunk paired with it was already handed out
    /// for the echo canceller, which is the render-before-capture ordering:
    /// after the call, the count of released capture chunks still does not
    /// exceed the count of render chunks handed out.
    pub fn take_ready_pair(&mut self) -> (r: Option<(Vec<i32>, Vec<i32>)>)
        requires
            old(self).wf(),
            old(self).num_streams == 2,
        ensures
            final(self).wf(),
            final(self).num_streams == 2,
            final(self).channels == old(self).channels,
            final(self).aec_enabled == old(self).aec_enabled,
            final(self).recording_mode == old(self).recording_mode,
            (old(self).capture_buffer@.len() < old(self).spec_frame_size() || old(self).render_mix_buffer@.len() < old(self).spec_frame_size()) ==> r is None && *final(self) == *old(self),
            (old(self).capture_buffer@.len() >= old(self).spec_frame_size() && old(self).render_mix_buffer@.len() >= old(self).spec_frame_size()) ==> {
                &&& r matches Some(pair)
                &&& (r matches Some(pair) ==> {
                    &&& pair.0@ == old(self).capture_buffer@.take(old(self).spec_frame_size())
                    &&& pair.1@ == old(self).render_mix_buffer@.take(
                        old(self).spec_frame_size(),
                    )
                    &&& valid_frame(pair.0@)
                    &&& valid_frame(pair.1@)
                })
                &&& final(self).capture_buffer@ == old(self).capture_buffer@.skip(
                    old(self).spec_frame_size(),
                )
                &&& final(self).render_mix_buffer@ == old(self).render_mix_buffer@.skip(
                    old(self).spec_frame_size(),
                )
                &&& final(self).render_buffer@ == old(self).render_buffer@
                &&& final(self).captures_processed@ == old(self).captures_processed@ + 1
                &&& final(self).renders_fed@ == old(self).renders_fed@
                &&& final(self).captures_processed@ <= final(self).renders_fed@
            },
    {
        let frame_size: usize = AEC_FRAME_SAMPLES * self.channels as usize;
        if self.capture_buffer.len() < frame_size || self.render_mix_buffer.len() < frame_size {
            return None;
        }
        let ghost pre = *old(self);
        let capture = vec_take_prefix(&mut self.capture_buffer, frame_size);
        let render = vec_take_prefix(&mut self.render_mix_buffer, frame_size);
        proof {
            self.captures_processed@ = self.captures_processed@ + 1;
            let frame = pre.spec_frame_size();
            let fed = pre.renders_fed@;
            let cp = pre.captures_processed@;
            let received = pre.renders_received@;
            let rb = pre.render_buffer@.len() as int;
            let mix = pre.render_mix_buffer@.len() as int;
            assert(cp + 1 <= fed) by (nonlinear_arith)
                requires
                    fed * frame == received - rb,
                    cp * frame + mix == received,
                    mix >= frame,
                    rb < frame,
                    frame >= 1,
            ;
            assert((cp + 1) * frame == cp * frame + frame) by (nonlinear_arith);
            assert(forall|i: int|
                0 <= i < self.capture_buffer@.len() ==> valid_sample(
                    #[trigger] self.capture_buffer@[i],
                ));
            assert(forall|i: int|
                0 <= i < self.render_mix_buffer@.len() ==> valid_sample(
                    #[trigger] self.render_mix_buffer@[i],
                ));
        }
        Some((capture, render))
    }

    /// Combine one processed capture chunk with its render chunk according
    /// to the recording mode: in echo-cancel mode the processed capture
    /// alone; in mixed mode the halved sum without echo cancellation, and
    /// the soft-clipped sum with it.
    pub fn combine_chunk(&self, processed: &Vec<i32>, render: &Vec<i32>) -> (r: AudioFrame)
        requires
            valid_frame(processed@),
            valid_frame(render@),
            self.recording_mode == RecordingMode::Mixed ==> processed@.len() == render@.len(),
        ensures
            r.channels == self.channels,
            r.samples@.len() == processed@.len(),
            valid_frame(r.samples@),
            self.recording_mode == RecordingMode::EchoCancel ==> r.samples@ == processed@,
            (self.recording_mode == RecordingMode::Mixed && !self.aec_enabled) ==> forall|i: int|
                0 <= i < r.samples@.len() ==> r.samples@[i] == tdiv(
                    processed@[i] + render@[i],
                    2,
                ),
            (self.recording_mode == RecordingMode::Mixed && self.aec_enabled) ==> forall|i: int|
                0 <= i < r.samples@.len() ==> r.samples@[i] == spec_soft_clip(
                    processed@[i] + render@[i],
                ),
    {
        let mut out: Vec<i32> = Vec::new();
        match self.recording_mode {
            RecordingMode::EchoCancel => {
                vec_extend(&mut out, processed);
                proof {
                    assert(out@ =~= processed@);
                }
            },
            RecordingMode::Mixed => {
                let mut i: usize = 0;
                while i < processed.len()
                    invariant
                        valid_frame(processed@),
                        valid_frame(render@),
                        processed@.len() == render@.len(),
                        i <= processed@.len(),
                        out@.len() == i as int,
                        valid_frame(out@),
                        !self.aec_enabled ==> forall|j: int|
                            0 <= j < i as int ==> out@[j] == tdiv(
                                processed@[j] + render@[j],
                                2,
                            ),
                        self.aec_enabled ==> forall|j: int|
                            0 <= j < i as int ==> out@[j] == spec_soft_clip(
                                processed@[j] + render@[j],
                            ),
                    decreases processed@.len() - i,
                {
                    let sum: i32 = processed[i] + render[i];
                    if self.aec_enabled {
                        out.push(soft_clip(sum));
                    } else {
                        out.push(sum / 2);
                    }
                    i += 1;
                }
            },
        }
        AudioFrame { samples: out, channels: self.channels }
    }

    /// Drop capture audio held while the render stream has dried up, so the
    /// pipeline does not grow without bound during a render drought.
    pub fn drop_held_capture(&mut self)
        requires
            old(self).wf(),
        ensures
            final(self).wf(),
            final(self).capture_buffer@.len() == 0,
            final(self).render_buffer@ == old(self).render_buffer@,
            final(self).render_mix_buffer@ == old(self).render_mix_buffer@,
            final(self).num_streams == old(self).num_streams,
            final(self).channels == old(self).channels,
            final(self).aec_enabled == old(self).aec_enabled,
            final(self).recording_mode == old(self).recording_mode,
            final(self).renders_fed@ == old(self).renders_fed@,
            final(self).captures_processed@ == old(self).captures_processed@,
    {
        if self.num_streams == 2 {
            self.capture_buffer = Vec::new();
        }
    }
}

/// What a render push does in two-stream mode: both render paths receive
/// the samples, and every complete chunk is split off the canceller path in
/// arrival order and handed out.
pub open spec fn spec_render_push(
    pre: AudioMixer,
    post: AudioMixer,
    samples: Seq<i32>,
    fed: Seq<Vec<i32>>,
) -> bool {
    let frame = pre.spec_frame_size();
    let total = pre.render_buffer@ + samples;
    let k = total.len() as int / frame;
    &&& spec_render_push_frozen(pre, post, samples)
    &&& fed.len() == k
    &&& (forall|j: int|
        0 <= j < k ==> fed[j]@ == total.subrange(j * frame, (j + 1) * frame))
    &&& post.render_buffer@ == total.skip(k * frame)
    &&& post.renders_fed@ == pre.renders_fed@ + k
}

/// The parts of a render push that do not depend on the chunking.
pub open spec fn spec_render_push_frozen(
    pre: AudioMixer,
    post: AudioMixer,
    samples: Seq<i32>,
) -> bool {
    &&& post.capture_buffer@ == pre.capture_buffer@
    &&& post.render_mix_buffer@ == pre.render_mix_buffer@ + samples
    &&& post.renders_received@ == pre.renders_received@ + samples.len()
    &&& post.captures_processed@ == pre.captures_processed@
    &&& post.num_streams == pre.num_streams
    &&& post.channels == pre.channels
    &&& post.aec_enabled == pre.aec_enabled
    &&& post.recording_mode == pre.recording_mode
}

/// Splitting the next chunk off the remainder advances the drain by one.
proof fn lemma_skip_chunk(total: Seq<i32>, k: int, frame: int)
    requires
        frame >= 1,
        0 <= k,
        0 <= k * frame,
        k * frame + frame <= total.len(),
    ensures
        total.skip(k * frame).take(frame) == total.subrange(k * frame, (k + 1) * frame),
        total.skip(k * frame).skip(frame) == total.skip((k + 1) * frame),
        0 <= (k + 1) * frame <= total.len(),
{
    assert((k + 1) * frame == k * frame + frame) by (nonlinear_arith);
    assert(total.skip(k * frame).take(frame) =~= total.subrange(k * frame, (k + 1) * frame));
    assert(total.skip(k * frame).skip(frame) =~= total.skip((k + 1) * frame));
}

/// When less than one chunk remains, the number drained is the whole
/// number of chunks available.
proof fn lemma_drain_complete(total: Seq<i32>, k: int, frame: int, rest: int)
    requires
        frame >= 1,
        0 <= k,
        rest == total.len() - k * frame,
        0 <= rest < frame,
    ensures
        k == total.len() as int / frame,
{
    assert(k == total.len() as int / frame) by (nonlinear_arith)
        requires
            frame >= 1,
            0 <= k,
            k * frame <= total.len(),
            total.len() < k * frame + frame,
    ;
}

/// Resolve what the echo canceller produced for a capture chunk: its
/// output when it handed one back, and the raw capture chunk as the
/// substitute when the canceller failed, produced nothing yet, or was not
/// applied at all.
pub fn apply_aec_output(capture: Vec<i32>, aec_output: Option<Vec<i32>>) -> (r: Vec<i32>)
    requires
        valid_frame(capture@),
        aec_output matches Some(o) ==> valid_frame(o@) && o@.len() == capture@.len(),
    ensures
        aec_output matches Some(o) ==> r@ == o@,
        aec_output is None ==> r@ == capture@,
        valid_frame(r@),
        r@.len() == capture@.len(),
{
    match aec_output {
        Some(output) => output,
        None => capture,
    }
}

} // verus!
