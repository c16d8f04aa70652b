//! Fixed-point audio samples and basic frame arithmetic.

use vstd::prelude::*;

verus! {

/// Fixed-point scale: a sample with this magnitude has full-scale amplitude
/// one. Samples handed to the library are clamped to `[-SAMPLE_UNIT,
/// SAMPLE_UNIT]` when they are produced from the capture format.
pub const SAMPLE_UNIT: i32 = 32768;

/// Division truncating toward zero, the semantics of Rust's `/` on signed
/// integers with a positive divisor.
pub open spec fn tdiv(a: int, d: int) -> int
    recommends
        d > 0,
{
    if a >= 0 {
        a / d
    } else {
        -((-a) / d)
    }
}

/// A sample within the nominal full-scale range.
pub open spec fn valid_sample(x: i32) -> bool {
    -(SAMPLE_UNIT as int) <= x <= SAMPLE_UNIT as int
}

/// Every sample of the frame is within the nominal full-scale range.
pub open spec fn valid_frame(s: Seq<i32>) -> bool {
    forall|i: int| 0 <= i < s.len() ==> valid_sample(s[i])
}

/// Sum of `n` consecutive samples starting at `start`.
pub open spec fn sum_at(s: Seq<i32>, start: int, n: int) -> int
    decreases n,
{
    if n <= 0 {
        0
    } else {
        s[start] + sum_at(s, start + 1, (n - 1) as int)
    }
}

/// Downmix one interleaved frame position to mono by averaging the channels.
pub open spec fn mono_of(s: Seq<i32>, channels: int, i: int) -> int
    recommends
        channels >= 1,
{
    tdiv(sum_at(s, i * channels, channels), channels)
}

proof fn lemma_tdiv_shrinks_bound(a: int, d: int, u: int)
    requires
        d >= 1,
        u >= 0,
        -(d * u) <= a <= d * u,
    ensures
        -u <= tdiv(a, d) <= u,
{
    assert(a >= 0 ==> 0 <= a / d <= u) by (nonlinear_arith)
        requires
            d >= 1,
            u >= 0,
            a <= d * u,
    ;
    assert(a < 0 ==> 0 <= (-a) / d <= u) by (nonlinear_arith)
        requires
            d >= 1,
            u >= 0,
            -(d * u) <= a,
    ;
}

/// Convert an interleaved frame with one or two channels to mono by averaging
/// each sample group; a mono frame is returned unchanged.
pub fn convert_to_mono(samples: &Vec<i32>, channels: usize) -> (r: Vec<i32>)
    requires
        valid_frame(samples@),
        1 <= channels <= 2,
        samples@.len() as int % channels as int == 0,
    ensures
        channels == 1 ==> r@ == samples@,
        r@.len() == samples@.len() as int / channels as int,
        forall|i: int| 0 <= i < r@.len() ==> r@[i] == mono_of(samples@, channels as int, i),
        valid_frame(r@),
{
    if channels == 1 {
        let mut out: Vec<i32> = Vec::new();
        let mut i: usize = 0;
        while i < samples.len()
            invariant
                i <= samples@.len(),
                out@ == samples@.subrange(0, i as int),
            decreases samples@.len() - i,
        {
            out.push(samples[i]);
            i += 1;
        }
        proof {
            assert(out@ =~= samples@);
            assert forall|i: int| 0 <= i < out@.len() implies out@[i] == mono_of(
                samples@,
                1,
                i,
            ) by {
                assert(sum_at(samples@, i, 1) == samples@[i] + sum_at(samples@, i + 1, 0));
            }
        }
        return out;
    }
    let n = samples.len() / 2;
    let mut out: Vec<i32> = Vec::new();
    let mut i: usize = 0;
    while i < n
        invariant
            valid_frame(samples@),
            channels == 2,
            samples@.len() == 2 * n,
            samples@.len() <= usize::MAX,
            i <= n,
            out@.len() == i as int,
            forall|k: int| 0 <= k < i as int ==> out@[k] == mono_of(samples@, 2, k),
            valid_frame(out@),
        decreases n - i,
    {
        let a = samples[2 * i];
        let b = samples[2 * i + 1];
        let avg: i32 = ((a as i64 + b as i64) / 2) as i32;
        proof {
            let s = sum_at(samples@, 2 * i as int, 2);
            assert(s == samples@[2 * i as int] + sum_at(samples@, 2 * i as int + 1, 1));
            assert(sum_at(samples@, 2 * i as int + 1, 1) == samples@[2 * i as int + 1] + sum_at(
                samples@,
                2 * i as int + 2,
                0,
            ));
            assert(s == a as int + b as int);
            lemma_tdiv_shrinks_bound(s, 2, SAMPLE_UNIT as int);
            assert(avg as int == mono_of(samples@, 2, i as int));
        }
        out.push(avg);
        i += 1;
    }
    out
}

} // verus!
