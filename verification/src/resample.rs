//! Preparing a captured segment for inference: mono downmix and linear
//! resampling to 16 kHz.

use vstd::prelude::*;

use crate::sample::{convert_to_mono, mono_of, tdiv, valid_frame};

verus! {

/// Inference sample rate in hertz.
pub const TARGET_RATE: u32 = 16000;

/// Raw recorded audio before processing.
#[derive(Debug, Clone)]
pub struct RawRecordedAudio {
    /// Interleaved fixed-point samples.
    pub samples: Vec<i32>,
    /// Sample rate of the capture.
    pub sample_rate: u32,
    /// Number of interleaved channels.
    pub channels: u16,
}

/// Number of output samples of the linear resampler.
pub open spec fn spec_resampled_len(n: int, src: int, tgt: int) -> int {
    if src == tgt {
        n
    } else if n == 0 {
        0
    } else {
        (n * tgt + src - 1) / src
    }
}

/// Linear interpolation of output sample `i`: the fractional source
/// position `i * src / tgt` interpolates between the two surrounding
/// samples; past the last sample the last value, past the end zero.
pub open spec fn spec_resampled_at(s: Seq<i32>, src: int, tgt: int, i: int) -> int
    recommends
        tgt >= 1,
{
    let p = i * src;
    let idx = p / tgt;
    let frac = p % tgt;
    if idx + 1 < s.len() {
        tdiv(s[idx] * (tgt - frac) + s[idx + 1] * frac, tgt)
    } else if idx < s.len() {
        s[idx] as int
    } else {
        0
    }
}

/// Resample audio to 16 kHz by linear interpolation. A stream already at
/// 16 kHz is returned unchanged.
pub fn resample_to_16khz(samples: &Vec<i32>, source_rate: u32) -> (r: Vec<i32>)
    requires
        valid_frame(samples@),
        1000 <= source_rate <= 1000000,
        samples@.len() <= 0x400_0000,
    ensures
        r@.len() == spec_resampled_len(
            samples@.len() as int,
            source_rate as int,
            TARGET_RATE as int,
        ),
        source_rate == TARGET_RATE ==> r@ == samples@,
        source_rate != TARGET_RATE ==> forall|i: int|
            0 <= i < r@.len() ==> r@[i] == spec_resampled_at(
                samples@,
                source_rate as int,
                TARGET_RATE as int,
                i,
            ),
        valid_frame(r@),
{
    if source_rate == TARGET_RATE {
        let mut out: Vec<i32> = Vec::new();
        let mut i: usize = 0;
        while i < samples.len()
            invariant
                i <= samples@.len(),
                out@ == samples@.subrange(0, i as int),
            decreases samples@.len() - i,
        {
            out.push(samples[i]);
            i += 1;
        }
        proof {
            assert(out@ =~= samples@);
        }
        return out;
    }
    let n = samples.len();
    if n == 0 {
        return Vec::new();
    }
    proof {
        assert((n as int * 16000 + source_rate - 1) / (source_rate as int) <= n as int * 16)
            by (nonlinear_arith)
            requires
                1000 <= source_rate as int <= 1000000,
                1 <= n as int <= 0x400_0000,
        ;
    }
    let output_len: usize = (((n as u64) * (TARGET_RATE as u64) + (source_rate as u64) - 1) / (
    source_rate as u64)) as usize;
    let mut out: Vec<i32> = Vec::new();
    let mut i: usize = 0;
    while i < output_len
        invariant
            valid_frame(samples@),
            n == samples@.len(),
            1 <= n <= 0x400_0000,
            1000 <= source_rate <= 1000000,
            source_rate != TARGET_RATE,
            output_len as int == spec_resampled_len(n as int, source_rate as int, 16000),
            output_len <= 0x4000_0000,
            i <= output_len,
            out@.len() == i as int,
            valid_frame(out@),
            forall|j: int|
                0 <= j < i as int ==> out@[j] == spec_resampled_at(
                    samples@,
                    source_rate as int,
                    TARGET_RATE as int,
                    j,
                ),
        decreases output_len - i,
    {
        proof {
            assert(i as int * source_rate as int <= 0x4000_0000int * 1000000)
                by (nonlinear_arith)
                requires
                    0 <= i as int <= 0x4000_0000,
                    source_rate as int <= 1000000,
            ;
            assert(i as int * source_rate as int <= n as int * 16000 + 1000000)
                by (nonlinear_arith)
                requires
                    0 <= i as int,
                    (i as int) < (n as int * 16000 + source_rate - 1) / (source_rate as int),
                    1000 <= source_rate as int <= 1000000,
                    1 <= n as int,
            ;
            assert(i as int * source_rate as int / 16000 <= n as int + 63)
                by (nonlinear_arith)
                requires
                    0 <= i as int * source_rate as int <= n as int * 16000 + 1000000,
            ;
        }
        let p: u64 = (i as u64) * (source_rate as u64);
        let idx: usize = (p / (TARGET_RATE as u64)) as usize;
        let frac: u64 = p % (TARGET_RATE as u64);
        let sample: i32 = if idx + 1 < n {
            let a = samples[idx] as i64;
            let b = samples[idx + 1] as i64;
            let t = TARGET_RATE as i64;
            let f = frac as i64;
            proof {
                lemma_interp_bounds(a as int, b as int, 16000, frac as int);
            }
            ((a * (t - f) + b * f) / t) as i32
        } else if idx < n {
            samples[idx]
        } else {
            0
        };
        proof {
            assert(sample as int == spec_resampled_at(
                samples@,
                source_rate as int,
                TARGET_RATE as int,
                i as int,
            ));
        }
        out.push(sample);
        i += 1;
    }
    out
}

/// The interpolated value stays within full scale and matches truncating
/// division.
proof fn lemma_interp_bounds(a: int, b: int, t: int, f: int)
    requires
        -32768 <= a <= 32768,
        -32768 <= b <= 32768,
        t == 16000,
        0 <= f < t,
    ensures
        -(32768 * t) <= a * (t - f) + b * f <= 32768 * t,
        -(32768 * t) <= a * (t - f) <= 32768 * t,
        -(32768 * t) <= b * f <= 32768 * t,
        -32768 <= tdiv(a * (t - f) + b * f, t) <= 32768,
{
    assert(-(32768 * t) <= a * (t - f) <= 32768 * t && -(32768 * t) <= b * f <= 32768 * t)
        by (nonlinear_arith)
        requires
            -32768 <= a <= 32768,
            -32768 <= b <= 32768,
            0 <= f < t,
            t == 16000,
    ;
    assert(-(32768 * t) <= a * (t - f) + b * f <= 32768 * t) by (nonlinear_arith)
        requires
            -32768 <= a <= 32768,
            -32768 <= b <= 32768,
            0 <= f < t,
            t == 16000,
    ;
    let v = a * (t - f) + b * f;
    assert(-32768 <= tdiv(v, t) <= 32768) by (nonlinear_arith)
        requires
            t == 16000,
            -(32768 * t) <= v <= 32768 * t,
    ;
}

/// Process raw recorded audio into the format the inference engine takes:
/// mono, 16 kHz.
pub fn process_recorded_audio(raw: RawRecordedAudio) -> (r: Result<Vec<i32>, String>)
    requires
        valid_frame(raw.samples@),
        1 <= raw.channels <= 2,
        raw.samples@.len() as int % raw.channels as int == 0,
        1000 <= raw.sample_rate <= 1000000,
        raw.samples@.len() <= 0x400_0000,
    ensures
        r matches Ok(v) ==> {
            let mono = if raw.channels == 1 {
                raw.samples@
            } else {
                Seq::new(
                    (raw.samples@.len() as int / 2) as nat,
                    |i: int| mono_of(raw.samples@, 2, i) as i32,
                )
            };
            &&& v@.len() == spec_resampled_len(
                mono.len() as int,
                raw.sample_rate as int,
                TARGET_RATE as int,
            )
            &&& (raw.sample_rate == TARGET_RATE ==> v@ == mono)
            &&& (raw.sample_rate != TARGET_RATE ==> forall|i: int|
                0 <= i < v@.len() ==> v@[i] == spec_resampled_at(
                    mono,
                    raw.sample_rate as int,
                    TARGET_RATE as int,
                    i,
                ))
            &&& valid_frame(v@)
        },
        r is Ok,
{
    let mono_samples = if raw.channels > 1 {
        convert_to_mono(&raw.samples, raw.channels as usize)
    } else {
        raw.samples
    };
    proof {
        if raw.channels == 2 {
            assert(mono_samples@ =~= Seq::new(
                (raw.samples@.len() as int / 2) as nat,
                |i: int| mono_of(raw.samples@, 2, i) as i32,
            ));
        }
    }
    Ok(resample_to_16khz(&mono_samples, raw.sample_rate))
}

} // verus!
