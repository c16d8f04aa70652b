//! Visualization feed: peak-downsampled waveform and FFT frame
//! accumulation.
//!
//! The processor accumulates mono samples into a fixed FFT window and
//! downsamples each batch to a compact waveform, preserving the sign of the
//! peak. The spectral transform and color mapping of a completed window run
//! outside this module on the handed-out frame.

use vstd::prelude::*;

use crate::features::spec_abs;
use crate::sample::valid_frame;
use crate::vad::SpeechMetrics;

verus! {

/// Number of samples of one FFT window.
pub const FFT_SIZE: usize = 512;

/// Target number of waveform points per emitted batch.
pub const WAVEFORM_TARGET_SAMPLES: usize = 64;

/// What one visualization step hands back.
pub struct VizOutput {
    /// Peak-downsampled waveform of this batch.
    pub waveform: Vec<i32>,
    /// A completed FFT window, when the accumulator filled up.
    pub fft_frame: Option<Vec<i32>>,
    /// Speech metrics attached since the last step.
    pub speech_metrics: Option<SpeechMetrics>,
}

/// The element of `s[lo..hi)` with the greatest absolute value; on ties the
/// later element wins.
pub open spec fn spec_peak_signed(s: Seq<i32>, lo: int, hi: int) -> int
    recommends
        0 <= lo < hi <= s.len(),
    decreases hi - lo,
{
    if hi - lo <= 1 {
        s[lo] as int
    } else {
        let m = spec_peak_signed(s, lo, hi - 1);
        if spec_abs(s[hi - 1] as int) >= spec_abs(m) {
            s[hi - 1] as int
        } else {
            m
        }
    }
}

/// Downsampling window for a batch of `n` samples.
pub open spec fn spec_waveform_window(n: int) -> int {
    let w = n / WAVEFORM_TARGET_SAMPLES as int;
    if w < 1 {
        1
    } else {
        w
    }
}

/// Number of waveform points for a batch of `n` samples.
pub open spec fn spec_waveform_len(n: int) -> int {
    if n == 0 {
        0
    } else {
        (n + spec_waveform_window(n) - 1) / spec_waveform_window(n)
    }
}

/// Visualization processor: accumulates samples for the spectral window and
/// produces render-ready waveform batches.
pub struct VisualizationProcessor {
    /// Sample rate of the feed.
    pub sample_rate: u32,
    /// Pixel height of the spectral column computed outside.
    pub output_height: usize,
    /// Accumulator for the FFT window; always `FFT_SIZE` samples long.
    pub fft_buffer: Vec<i32>,
    /// Fill position within the FFT window.
    pub fft_write_index: usize,
    /// Speech metrics to attach to the next output.
    pub pending_speech_metrics: Option<SpeechMetrics>,
}

impl VisualizationProcessor {
    /// Structural invariant.
    pub open spec fn wf(self) -> bool {
        &&& self.fft_buffer@.len() == FFT_SIZE as int
        &&& self.fft_write_index <= FFT_SIZE
        &&& valid_frame(self.fft_buffer@)
    }

    /// Create a processor for the given sample rate and spectral column
    /// height.
    pub fn new(sample_rate: u32, output_height: usize) -> (r: Self)
        ensures
            r.wf(),
            r.sample_rate == sample_rate,
            r.output_height == output_height,
            r.fft_write_index == 0,
            r.pending_speech_metrics is None,
    {
        let mut fft_buffer: Vec<i32> = Vec::new();
        let mut i: usize = 0;
        while i < FFT_SIZE
            invariant
                i <= FFT_SIZE,
                fft_buffer@.len() == i as int,
                valid_frame(fft_buffer@),
            decreases FFT_SIZE - i,
        {
            fft_buffer.push(0);
            i += 1;
        }
        VisualizationProcessor {
            sample_rate,
            output_height,
            fft_buffer,
            fft_write_index: 0,
            pending_speech_metrics: None,
        }
    }

    /// Attach speech metrics to the next visualization output.
    pub fn set_speech_metrics(&mut self, metrics: SpeechMetrics)
        requires
            old(self).wf(),
        ensures
            final(self).wf(),
            *final(self) == (VisualizationProcessor {
                pending_speech_metrics: Some(metrics),
                ..*old(self)
            }),
    {
        self.pending_speech_metrics = Some(metrics);
    }

    /// Process one batch of mono samples: fill the FFT window with as much
    /// of the batch as it takes, hand the window out when it completes, and
    /// downsample the batch into a waveform.
    pub fn process(&mut self, samples: &Vec<i32>) -> (r: VizOutput)
        requires
            old(self).wf(),
            valid_frame(samples@),
            samples@.len() <= 0x4000_0000,
        ensures
            final(self).wf(),
            final(self).sample_rate == old(self).sample_rate,
            final(self).output_height == old(self).output_height,
            final(self).pending_speech_metrics is None,
            r.speech_metrics == old(self).pending_speech_metrics,
            r.waveform@.len() == spec_waveform_len(samples@.len() as int),
            (forall|k: int|
                0 <= k < r.waveform@.len() ==> r.waveform@[k] == spec_peak_signed(
                    samples@,
                    k * spec_waveform_window(samples@.len() as int),
                    if (k + 1) * spec_waveform_window(samples@.len() as int) <= samples@.len() {
                        (k + 1) * spec_waveform_window(samples@.len() as int)
                    } else {
                        samples@.len() as int
                    },
                )),
            ({
                let fill = old(self).fft_write_index as int;
                let taken = if samples@.len() <= FFT_SIZE - fill {
                    samples@.len() as int
                } else {
                    FFT_SIZE - fill
                };
                let full = fill + taken == FFT_SIZE;
                &&& (forall|j: int|
                    fill <= j < fill + taken ==> final(self).fft_buffer@[j] == samples@[j
                        - fill])
                &&& (forall|j: int|
                    0 <= j < fill || fill + taken <= j < FFT_SIZE
                        ==> final(self).fft_buffer@[j] == old(self).fft_buffer@[j])
                &&& final(self).fft_write_index as int == if full {
                    0
                } else {
                    fill + taken
                }
                &&& (full ==> (r.fft_frame matches Some(frame)) && (r.fft_frame matches Some(
                    frame,
                ) ==> frame@ == final(self).fft_buffer@))
                &&& (!full ==> r.fft_frame is None)
            }),
    {
        // Fill the FFT window.
        let fill = self.fft_write_index;
        let room = FFT_SIZE - fill;
        let taken: usize = if samples.len() <= room {
            samples.len()
        } else {
            room
        };
        let mut j: usize = 0;
        while j < taken
            invariant
                self.wf(),
                valid_frame(samples@),
                fill + taken <= FFT_SIZE,
                taken <= samples@.len(),
                j <= taken,
                self.fft_write_index == fill,
                self.sample_rate == old(self).sample_rate,
                self.output_height == old(self).output_height,
                self.pending_speech_metrics == old(self).pending_speech_metrics,
                forall|t: int|
                    fill as int <= t < fill as int + j as int ==> self.fft_buffer@[t]
                        == samples@[t - fill as int],
                forall|t: int|
                    0 <= t < fill as int || fill as int + j as int <= t < FFT_SIZE as int
                        ==> self.fft_buffer@[t] == old(self).fft_buffer@[t],
            decreases taken - j,
        {
            self.fft_buffer.set(fill + j, samples[j]);
            j += 1;
        }
        let full = fill + taken >= FFT_SIZE;
        let fft_frame: Option<Vec<i32>> = if full {
            let mut copy: Vec<i32> = Vec::new();
            let mut t: usize = 0;
            while t < FFT_SIZE
                invariant
                    self.wf(),
                    t <= FFT_SIZE,
                    copy@ == self.fft_buffer@.subrange(0, t as int),
                decreases FFT_SIZE - t,
            {
                copy.push(self.fft_buffer[t]);
                t += 1;
            }
            proof {
                assert(copy@ =~= self.fft_buffer@);
            }
            self.fft_write_index = 0;
            Some(copy)
        } else {
            self.fft_write_index = fill + taken;
            None
        };

        let waveform = downsample_waveform(samples);
        let speech_metrics = self.pending_speech_metrics.take();
        VizOutput { waveform, fft_frame, speech_metrics }
    }
}

/// Downsample a batch by signed peaks: each window contributes its sample
/// of greatest absolute value, sign preserved.
pub fn downsample_waveform(samples: &Vec<i32>) -> (r: Vec<i32>)
    requires
        valid_frame(samples@),
        samples@.len() <= 0x4000_0000,
    ensures
        r@.len() == spec_waveform_len(samples@.len() as int),
        forall|k: int|
            0 <= k < r@.len() ==> r@[k] == spec_peak_signed(
                samples@,
                k * spec_waveform_window(samples@.len() as int),
                if (k + 1) * spec_waveform_window(samples@.len() as int) <= samples@.len() {
                    (k + 1) * spec_waveform_window(samples@.len() as int)
                } else {
                    samples@.len() as int
                },
            ),
{
    let n = samples.len();
    if n == 0 {
        return Vec::new();
    }
    let window: usize = {
        let w = n / WAVEFORM_TARGET_SAMPLES;
        if w < 1 {
            1
        } else {
            w
        }
    };
    proof {
        assert((((n as int + window as int - 1) / window as int) * window as int) < n as int
            + window as int) by (nonlinear_arith)
            requires
                window as int >= 1,
                n as int >= 1,
        ;
    }
    let count: usize = (n + window - 1) / window;
    let mut out: Vec<i32> = Vec::new();
    let mut k: usize = 0;
    while k < count
        invariant
            valid_frame(samples@),
            n == samples@.len(),
            1 <= n <= 0x4000_0000,
            window as int == spec_waveform_window(n as int),
            1 <= window <= n,
            count as int == spec_waveform_len(n as int),
            count * window < n + window,
            k <= count,
            out@.len() == k as int,
            forall|t: int|
                0 <= t < k as int ==> out@[t] == spec_peak_signed(
                    samples@,
                    t * window as int,
                    if (t + 1) * window as int <= n as int {
                        (t + 1) * window as int
                    } else {
                        n as int
                    },
                ),
        decreases count - k,
    {
        proof {
            assert((k as int * window as int) < n as int && 0 <= k as int * window as int && (
            k as int + 1) * window as int == k as int * window as int + window as int && (
            k as int + 1) * window as int <= count as int * window as int)
                by (nonlinear_arith)
                requires
                    0 <= k as int,
                    (k as int) < count as int,
                    window as int >= 1,
                    count as int == (n as int + window as int - 1) / window as int,
                    1 <= n as int,
            ;
        }
        let lo: usize = k * window;
        let hi: usize = if lo + window <= n {
            lo + window
        } else {
            n
        };
        let mut best: i32 = samples[lo];
        let mut j: usize = lo + 1;
        while j < hi
            invariant
                valid_frame(samples@),
                n == samples@.len(),
                lo < hi <= n,
                lo < j <= hi,
                best as int == spec_peak_signed(samples@, lo as int, j as int),
                -32768 <= best as int <= 32768,
            decreases hi - j,
        {
            let x = samples[j];
            let ax: i32 = if x < 0 {
                -x
            } else {
                x
            };
            let ab: i32 = if best < 0 {
                -best
            } else {
                best
            };
            if ax >= ab {
                best = x;
            }
            j += 1;
        }
        out.push(best);
        k += 1;
    }
    out
}

} // verus!
