//! Per-frame speech features over fixed-point samples.
//!
//! The detector reads three features from each frame: the RMS amplitude, the
//! zero-crossing rate, and a first-difference surrogate for the spectral
//! centroid. All three are exact integer computations; amplitude thresholds
//! that the design states in decibels are carried as fixed-point linear
//! amplitudes.

use vstd::prelude::*;

use crate::sample::{valid_frame, SAMPLE_UNIT};

verus! {

/// Floor square root: the greatest `r` with `r * r <= x`.
pub open spec fn spec_isqrt(x: int) -> int
    decreases x,
{
    if x < 1 {
        0
    } else {
        if (spec_isqrt(x - 1) + 1) * (spec_isqrt(x - 1) + 1) <= x {
            spec_isqrt(x - 1) + 1
        } else {
            spec_isqrt(x - 1)
        }
    }
}

pub proof fn lemma_isqrt_bounds(x: int)
    requires
        x >= 0,
    ensures
        spec_isqrt(x) >= 0,
        spec_isqrt(x) * spec_isqrt(x) <= x,
        x < (spec_isqrt(x) + 1) * (spec_isqrt(x) + 1),
    decreases x,
{
    if x >= 1 {
        lemma_isqrt_bounds(x - 1);
        let p = spec_isqrt(x - 1);
        if (p + 1) * (p + 1) <= x {
            assert(x < (p + 2) * (p + 2)) by (nonlinear_arith)
                requires
                    x - 1 < (p + 1) * (p + 1),
                    p >= 0,
            ;
        }
    }
}

/// The floor square root is pinned by its bounds.
pub proof fn lemma_isqrt_unique(x: int, r: int)
    requires
        x >= 0,
        r >= 0,
        r * r <= x,
        x < (r + 1) * (r + 1),
    ensures
        r == spec_isqrt(x),
{
    lemma_isqrt_bounds(x);
    let s = spec_isqrt(x);
    if r < s {
        assert((r + 1) * (r + 1) <= s * s) by (nonlinear_arith)
            requires
                0 <= r,
                r + 1 <= s,
        ;
    }
    if s < r {
        assert((s + 1) * (s + 1) <= r * r) by (nonlinear_arith)
            requires
                0 <= s,
                s + 1 <= r,
        ;
    }
}

/// Integer floor square root by bisection.
pub fn isqrt_u64(x: u64) -> (r: u64)
    ensures
        r as int == spec_isqrt(x as int),
{
    let mut lo: u64 = 0;
    let mut hi: u64 = if x >= 0xFFFF_FFFF {
        0x1_0000_0000
    } else {
        x + 1
    };
    proof {
        assert((x as int + 1) * (x as int + 1) > x as int) by (nonlinear_arith)
            requires
                x as int >= 0,
        ;
        assert(0x1_0000_0000int * 0x1_0000_0000int > 0xFFFF_FFFFint);
    }
    // Invariant: lo * lo <= x < hi * hi.
    while lo + 1 < hi
        invariant
            lo < hi,
            hi <= 0x1_0000_0000,
            lo as int * lo as int <= x as int,
            (x as int) < hi as int * hi as int,
        decreases hi - lo,
    {
        let mid = lo + (hi - lo) / 2;
        proof {
            assert((mid as int * mid as int) < 0x1_0000_0000_0000_0000) by (nonlinear_arith)
                requires
                    mid as int <= 0xFFFF_FFFF,
            ;
        }
        if mid * mid <= x {
            lo = mid;
        } else {
            hi = mid;
        }
    }
    proof {
        lemma_isqrt_unique(x as int, lo as int);
    }
    lo
}

/// Sum of squared samples.
pub open spec fn spec_sum_sq(s: Seq<i32>) -> int
    decreases s.len(),
{
    if s.len() == 0 {
        0
    } else {
        s[0] * s[0] + spec_sum_sq(s.skip(1))
    }
}

pub proof fn lemma_sum_sq_nonneg(s: Seq<i32>)
    ensures
        spec_sum_sq(s) >= 0,
    decreases s.len(),
{
    if s.len() > 0 {
        lemma_sum_sq_nonneg(s.skip(1));
        assert(s[0] * s[0] >= 0) by (nonlinear_arith);
    }
}

pub proof fn lemma_sum_sq_bounded(s: Seq<i32>)
    requires
        valid_frame(s),
    ensures
        0 <= spec_sum_sq(s) <= s.len() * (SAMPLE_UNIT as int * SAMPLE_UNIT as int),
    decreases s.len(),
{
    if s.len() == 0 {
    } else {
        assert(valid_frame(s.skip(1))) by {
            assert(forall|i: int|
                0 <= i < s.skip(1).len() ==> s.skip(1)[i] == s[i + 1]);
        }
        lemma_sum_sq_bounded(s.skip(1));
        assert(s[0] * s[0] <= SAMPLE_UNIT as int * SAMPLE_UNIT as int) by (nonlinear_arith)
            requires
                -(SAMPLE_UNIT as int) <= s[0] <= SAMPLE_UNIT as int,
        ;
        assert(s[0] * s[0] >= 0) by (nonlinear_arith);
        assert(s.len() * (SAMPLE_UNIT as int * SAMPLE_UNIT as int) == (s.len() - 1) * (
        SAMPLE_UNIT as int * SAMPLE_UNIT as int) + SAMPLE_UNIT as int * SAMPLE_UNIT as int)
            by (nonlinear_arith);
    }
}

/// RMS amplitude of the frame in fixed-point units: the floor square root of
/// the mean squared sample.
pub open spec fn spec_rms_q15(s: Seq<i32>) -> int {
    if s.len() == 0 {
        0
    } else {
        spec_isqrt(spec_sum_sq(s) / s.len() as int)
    }
}

/// The RMS amplitude of a full-scale frame never exceeds the fixed-point
/// unit.
pub proof fn lemma_rms_bounded(s: Seq<i32>)
    requires
        valid_frame(s),
    ensures
        0 <= spec_rms_q15(s) <= 32768,
{
    if s.len() > 0 {
        lemma_sum_sq_bounded(s);
        let mean = spec_sum_sq(s) / s.len() as int;
        assert(0 <= mean <= 0x40000000) by (nonlinear_arith)
            requires
                0 <= spec_sum_sq(s) <= s.len() * 0x40000000,
                s.len() >= 1,
                mean == spec_sum_sq(s) / s.len() as int,
        ;
        lemma_isqrt_bounds(mean);
        lemma_isqrt_le(mean, 0x40000000);
        lemma_isqrt_unique(0x40000000, 32768);
    }
}

/// Number of adjacent sample pairs with opposite sign, where a sample counts
/// as non-negative when it is `>= 0`.
pub open spec fn spec_crossings(s: Seq<i32>) -> int
    decreases s.len(),
{
    if s.len() < 2 {
        0
    } else {
        spec_crossings(s.take(s.len() - 1)) + if (s[s.len() - 1] >= 0) != (s[s.len() - 2] >= 0) {
            1int
        } else {
            0int
        }
    }
}

pub proof fn lemma_crossings_bounded(s: Seq<i32>)
    ensures
        0 <= spec_crossings(s),
        s.len() >= 1 ==> spec_crossings(s) <= s.len() - 1,
    decreases s.len(),
{
    if s.len() >= 2 {
        lemma_crossings_bounded(s.take(s.len() - 1));
    }
}

/// Sum of absolute first differences of the frame.
pub open spec fn spec_sum_absdiff(s: Seq<i32>) -> int
    decreases s.len(),
{
    if s.len() < 2 {
        0
    } else {
        spec_sum_absdiff(s.take(s.len() - 1)) + spec_abs(s[s.len() - 1] - s[s.len() - 2])
    }
}

/// Sum of absolute sample values.
pub open spec fn spec_sum_abs(s: Seq<i32>) -> int
    decreases s.len(),
{
    if s.len() == 0 {
        0
    } else {
        spec_abs(s[s.len() - 1] as int) + spec_sum_abs(s.take(s.len() - 1))
    }
}

pub open spec fn spec_abs(x: int) -> int {
    if x >= 0 {
        x
    } else {
        -x
    }
}

/// Fixed-point RMS amplitude below which the spectral centroid is gated to
/// zero; about -55 dB of full scale.
pub const CENTROID_GATE_RMS_Q15: u32 = 58;

/// Spectral-centroid surrogate in integer hertz:
/// `rate * mean|dx| / (2 * mean|x|)`, computed over the exact sums, gated to
/// zero for frames below the amplitude gate or without any signal.
pub open spec fn spec_centroid_hz(s: Seq<i32>, rate: int) -> int {
    if s.len() < 2 || spec_rms_q15(s) < CENTROID_GATE_RMS_Q15 as int || spec_sum_abs(s) == 0 {
        0
    } else {
        rate * spec_sum_absdiff(s) * s.len() / (2 * (s.len() - 1) * spec_sum_abs(s))
    }
}

/// The per-frame features the detector decides on: frame length, RMS
/// amplitude, zero crossings, and centroid.
pub struct FrameFeatures {
    /// Number of samples in the frame.
    pub len: usize,
    /// RMS amplitude in fixed-point units.
    pub rms_q15: u32,
    /// Count of adjacent sample pairs with opposite sign.
    pub crossings: u64,
    /// Spectral-centroid surrogate in hertz.
    pub centroid_hz: u64,
}

impl FrameFeatures {
    /// The features match the frame they were extracted from.
    pub open spec fn spec_of(self, s: Seq<i32>, rate: int) -> bool {
        &&& self.len == s.len()
        &&& self.rms_q15 as int == spec_rms_q15(s)
        &&& self.crossings as int == spec_crossings(s)
        &&& self.centroid_hz as int == spec_centroid_hz(s, rate)
    }
}

/// Extract the frame features: RMS, zero crossings, and centroid.
pub fn extract_features(samples: &Vec<i32>, sample_rate: u32) -> (r: FrameFeatures)
    requires
        valid_frame(samples@),
        1000 <= sample_rate <= 1000000,
        samples@.len() <= 0x4000_0000,
    ensures
        r.spec_of(samples@, sample_rate as int),
{
    let n = samples.len();
    if n == 0 {
        return FrameFeatures { len: 0, rms_q15: 0, crossings: 0, centroid_hz: 0 };
    }
    let mut sum_sq: u64 = 0;
    let mut crossings: u64 = 0;
    let mut sum_diff: u64 = 0;
    let mut sum_abs: u64 = 0;
    let mut i: usize = 0;
    proof {
        assert(samples@.take(0) =~= Seq::<i32>::empty());
    }
    while i < n
        invariant
            valid_frame(samples@),
            n == samples@.len(),
            n >= 1,
            n <= 0x40000000,
            i <= n,
            sum_sq as int == spec_sum_sq(samples@.take(i as int)),
            crossings as int == spec_crossings(samples@.take(i as int)),
            sum_diff as int == spec_sum_absdiff(samples@.take(i as int)),
            sum_abs as int == spec_sum_abs(samples@.take(i as int)),
            sum_sq as int <= i as int * 0x40000000,
            crossings as int <= i as int,
            sum_diff as int <= i as int * 0x20000,
            sum_abs as int <= i as int * 0x8000,
            i >= 1 ==> sum_diff as int <= 2 * sum_abs as int - spec_abs(
                samples@[i as int - 1] as int,
            ),
        decreases n - i,
    {
        let x = samples[i];
        proof {
            let t1 = samples@.take(i as int + 1);
            assert(t1.take(t1.len() - 1) =~= samples@.take(i as int));
            lemma_sum_sq_take_step(samples@, i as int);
            assert(x as int * x as int <= 0x40000000) by (nonlinear_arith)
                requires
                    -32768 <= x as int <= 32768,
            ;
            assert(x as int * x as int >= 0) by (nonlinear_arith);
            assert((i as int + 1) * 0x40000000 == i as int * 0x40000000 + 0x40000000)
                by (nonlinear_arith);
            assert((i as int + 1) * 0x20000 == i as int * 0x20000 + 0x20000) by (nonlinear_arith);
            assert((i as int + 1) * 0x8000 == i as int * 0x8000 + 0x8000) by (nonlinear_arith);
            assert(i as int * 0x40000000 <= 0x40000000 * 0x40000000) by (nonlinear_arith)
                requires
                    i as int <= 0x40000000,
            ;
            assert(i as int * 0x8000 <= 0x40000000 * 0x8000) by (nonlinear_arith)
                requires
                    i as int <= 0x40000000,
            ;
            assert(i as int * 0x20000 <= 0x40000000 * 0x20000) by (nonlinear_arith)
                requires
                    i as int <= 0x40000000,
            ;
        }
        sum_sq = sum_sq + ((x as i64 * x as i64) as u64);
        let ax: u32 = if x < 0 {
            (-(x as i64)) as u32
        } else {
            x as u32
        };
        sum_abs = sum_abs + ax as u64;
        if i >= 1 {
            let p = samples[i - 1];
            if (x >= 0) != (p >= 0) {
                crossings = crossings + 1;
            }
            let d: u32 = if x >= p {
                (x as i64 - p as i64) as u32
            } else {
                (p as i64 - x as i64) as u32
            };
            sum_diff = sum_diff + d as u64;
        }
        i += 1;
    }
    proof {
        assert(samples@.take(n as int) =~= samples@);
    }
    let mean_sq = sum_sq / (n as u64);
    proof {
        lemma_sum_sq_nonneg(samples@);
        assert(sum_sq as int / n as int <= sum_sq as int) by (nonlinear_arith)
            requires
                n as int >= 1,
                sum_sq as int >= 0,
        ;
    }
    let rms = isqrt_u64(mean_sq);
    proof {
        assert(mean_sq as int <= 0x40000000) by (nonlinear_arith)
            requires
                sum_sq as int <= n as int * 0x40000000,
                n as int >= 1,
                mean_sq as int == sum_sq as int / n as int,
                sum_sq as int >= 0,
        ;
        lemma_isqrt_le(mean_sq as int, 0x40000000);
        lemma_isqrt_unique(0x40000000, 32768);
    }
    let centroid: u64 = if n < 2 || rms < CENTROID_GATE_RMS_Q15 as u64 || sum_abs == 0 {
        0
    } else {
        proof {
            lemma_centroid_bounds(
                sample_rate as int,
                sum_diff as int,
                n as int,
                sum_abs as int,
            );
        }
        let num: u128 = sample_rate as u128 * sum_diff as u128 * n as u128;
        let den: u128 = 2 * ((n - 1) as u128) * sum_abs as u128;
        (num / den) as u64
    };
    FrameFeatures { len: n, rms_q15: rms as u32, crossings, centroid_hz: centroid }
}

/// Extending a prefix by one sample extends each running feature sum.
proof fn lemma_sum_sq_take_step(s: Seq<i32>, i: int)
    requires
        0 <= i < s.len(),
    ensures
        spec_sum_sq(s.take(i + 1)) == spec_sum_sq(s.take(i)) + s[i] * s[i],
{
    let a = s.take(i);
    let b = s.take(i + 1);
    lemma_sum_sq_snoc(b);
    assert(b.take(b.len() - 1) =~= a);
    assert(b[b.len() - 1] == s[i]);
}

/// Sum of squares over a sequence, peeled from the back.
proof fn lemma_sum_sq_snoc(s: Seq<i32>)
    requires
        s.len() >= 1,
    ensures
        spec_sum_sq(s) == spec_sum_sq(s.take(s.len() - 1)) + s[s.len() - 1] * s[s.len() - 1],
    decreases s.len(),
{
    if s.len() == 1 {
        assert(s.take(0) =~= Seq::<i32>::empty());
        assert(spec_sum_sq(s) == s[0] * s[0] + spec_sum_sq(s.skip(1)));
        assert(s.skip(1) =~= Seq::<i32>::empty());
    } else {
        let t = s.skip(1);
        lemma_sum_sq_snoc(t);
        assert(t.take(t.len() - 1) =~= s.take(s.len() - 1).skip(1));
        assert(t[t.len() - 1] == s[s.len() - 1]);
        assert(spec_sum_sq(s.take(s.len() - 1)) == s.take(s.len() - 1)[0] * s.take(
            s.len() - 1,
        )[0] + spec_sum_sq(s.take(s.len() - 1).skip(1)));
    }
}

/// Floor square root is monotone.
pub proof fn lemma_isqrt_le(x: int, y: int)
    requires
        0 <= x <= y,
    ensures
        spec_isqrt(x) <= spec_isqrt(y),
{
    lemma_isqrt_bounds(x);
    lemma_isqrt_bounds(y);
    let a = spec_isqrt(x);
    let b = spec_isqrt(y);
    if b < a {
        assert((b + 1) * (b + 1) <= a * a) by (nonlinear_arith)
            requires
                0 <= b,
                b + 1 <= a,
        ;
    }
}

proof fn lemma_centroid_bounds(rate: int, sum_diff: int, n: int, sum_abs: int)
    requires
        1000 <= rate <= 1000000,
        0 <= sum_diff <= n * 0x20000,
        sum_diff <= 2 * sum_abs,
        2 <= n <= 0x40000000,
        1 <= sum_abs <= n * 0x8000,
    ensures
        0 <= rate * sum_diff * n < 0x1_0000_0000_0000_0000_0000_0000_0000_0000,
        0 <= rate * sum_diff < 0x1_0000_0000_0000_0000_0000_0000_0000_0000,
        1 <= 2 * (n - 1) * sum_abs < 0x1_0000_0000_0000_0000_0000_0000_0000_0000,
        2 * (n - 1) < 0x1_0000_0000_0000_0000_0000_0000_0000_0000,
        rate * sum_diff * n / (2 * (n - 1) * sum_abs) <= 4000000,
{
    assert(0 <= rate * sum_diff <= 1000000 * (n * 0x20000)) by (nonlinear_arith)
        requires
            1000 <= rate <= 1000000,
            0 <= sum_diff <= n * 0x20000,
            2 <= n,
    ;
    assert(1000000 * (n * 0x20000) < 0x1_0000_0000_0000_0000_0000_0000_0000_0000)
        by (nonlinear_arith)
        requires
            2 <= n <= 0x40000000,
    ;
    assert(rate * sum_diff * n >= 0 && rate * sum_diff * n <= 1000000 * (n * 0x20000) * n)
        by (nonlinear_arith)
        requires
            1000 <= rate <= 1000000,
            0 <= sum_diff <= n * 0x20000,
            2 <= n,
    ;
    assert(1000000 * (n * 0x20000) * n < 0x1_0000_0000_0000_0000_0000_0000_0000_0000)
        by (nonlinear_arith)
        requires
            2 <= n <= 0x40000000,
    ;
    assert(1 <= 2 * (n - 1) * sum_abs < 0x1_0000_0000_0000_0000_0000_0000_0000_0000)
        by (nonlinear_arith)
        requires
            2 <= n <= 0x40000000,
            1 <= sum_abs <= n * 0x8000,
    ;
    assert(1 <= (n - 1) * sum_abs) by (nonlinear_arith)
        requires
            2 <= n,
            1 <= sum_abs,
    ;
    // Each absolute difference is at most the two absolute samples around
    // it, so sum|dx| <= 2 * sum|x| and the quotient stays below twice the
    // sample rate.
    assert(rate * sum_diff * n <= (2 * rate) * ((n - 1) * sum_abs) * 2) by (nonlinear_arith)
        requires
            1000 <= rate,
            0 <= sum_diff,
            sum_diff <= 2 * sum_abs,
            2 <= n,
            1 <= sum_abs,
    ;
    assert(rate * sum_diff * n / (2 * (n - 1) * sum_abs) <= 4000000) by (nonlinear_arith)
        requires
            rate * sum_diff * n <= (2 * rate) * ((n - 1) * sum_abs) * 2,
            rate * sum_diff * n >= 0,
            rate <= 1000000,
            1 <= (n - 1) * sum_abs,
    ;
}

} // verus!
