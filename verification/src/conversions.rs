//! The conversion layer: pure per-sample transforms that normalize a source's
//! channel layout to the engine's working format.  Conversion preserves
//! perceptual content: every output sample is defined pointwise from the
//! input.

use crate::clamp_amp;
use crate::samples_bounded;
use crate::AMP_MAX;
use vstd::arithmetic::div_mod::lemma_div_is_ordered;
use vstd::arithmetic::div_mod::lemma_div_multiples_vanish_fancy;
use vstd::arithmetic::div_mod::lemma_fundamental_div_mod;
use vstd::arithmetic::mul::lemma_mul_inequality;
use vstd::prelude::*;

verus! {

/// Halve a small sample sum, rounding toward negative infinity, so that the
/// executable result equals the mathematical `s / 2`.
fn half_floor(s: i64) -> (r: i64)
    requires
        -4 * (AMP_MAX as int) <= s <= 4 * (AMP_MAX as int),
    ensures
        r as int == s as int / 2,
{
    if s >= 0 {
        let h: u64 = (s as u64) / 2;
        h as i64
    } else {
        let t: u64 = (-s) as u64;
        let h: u64 = (t + 1) / 2;
        proof {
            assert(-((t + 1) as int / 2) == (s as int) / 2) by {
                assert(t == -(s as int));
                assert((t as int) % 2 == 0 || (t as int) % 2 == 1);
            };
        }
        -(h as i64)
    }
}

/// Up-mix a mono stream to stereo by duplicating each sample into both
/// channels.  The frame count doubles; the wall-clock length is unchanged.
pub fn mono_to_stereo(samples: &Vec<i64>) -> (r: Vec<i64>)
    requires
        samples@.len() * 2 <= usize::MAX,
    ensures
        r@.len() == samples@.len() * 2,
        forall|i: int|
            0 <= i < samples@.len() ==> r@[2 * i] == #[trigger] samples@[i] && r@[2 * i + 1]
                == samples@[i],
        samples_bounded(samples@) ==> samples_bounded(r@),
{
    let mut out: Vec<i64> = Vec::new();
    let mut i: usize = 0;
    while i < samples.len()
        invariant
            i <= samples@.len(),
            samples@.len() * 2 <= usize::MAX,
            out@.len() == 2 * i,
            forall|j: int|
                0 <= j < i ==> out@[2 * j] == #[trigger] samples@[j] && out@[2 * j + 1]
                    == samples@[j],
        decreases samples@.len() - i,
    {
        let s: i64 = samples[i];
        out.push(s);
        out.push(s);
        i += 1;
    }
    proof {
        if samples_bounded(samples@) {
            assert forall|i: int| 0 <= i < out@.len() implies -(AMP_MAX as int)
                <= #[trigger] out@[i] <= AMP_MAX as int by {
                let j = i / 2;
                assert(out@[2 * j] == samples@[j] && out@[2 * j + 1] == samples@[j]);
                assert(i == 2 * j || i == 2 * j + 1);
            }
        }
    }
    out
}

/// Normalize decoder output in the common sixteen-bit signed format to the
/// engine's internal representation, clipping the one value below the
/// engine's symmetric full scale.
pub fn normalize_i16(samples: &Vec<i16>) -> (r: Vec<i64>)
    ensures
        r@.len() == samples@.len(),
        forall|i: int|
            0 <= i < samples@.len() ==> #[trigger] r@[i] as int == clamp_amp(samples@[i] as int),
        samples_bounded(r@),
{
    let mut out: Vec<i64> = Vec::new();
    let mut i: usize = 0;
    while i < samples.len()
        invariant
            i <= samples@.len(),
            out@.len() == i,
            forall|j: int|
                0 <= j < i ==> #[trigger] out@[j] as int == clamp_amp(samples@[j] as int),
            samples_bounded(out@),
        decreases samples@.len() - i,
    {
        let s: i64 = samples[i] as i64;
        let v: i64 = if s < -AMP_MAX {
            -AMP_MAX
        } else {
            s
        };
        out.push(v);
        i += 1;
    }
    out
}

/// Normalize decoder output in the eight-bit unsigned format to the engine's
/// internal representation: recentred around zero and scaled up, clipped at
/// the symmetric full scale.
pub fn normalize_u8(samples: &Vec<u8>) -> (r: Vec<i64>)
    ensures
        r@.len() == samples@.len(),
        forall|i: int|
            0 <= i < samples@.len() ==> #[trigger] r@[i] as int == clamp_amp(
                (samples@[i] as int - 128) * 256,
            ),
        samples_bounded(r@),
{
    let mut out: Vec<i64> = Vec::new();
    let mut i: usize = 0;
    while i < samples.len()
        invariant
            i <= samples@.len(),
            out@.len() == i,
            forall|j: int|
                0 <= j < i ==> #[trigger] out@[j] as int == clamp_amp(
                    (samples@[j] as int - 128) * 256,
                ),
            samples_bounded(out@),
        decreases samples@.len() - i,
    {
        let s: i64 = samples[i] as i64;
        let v: i64 = (s - 128) * 256;
        let c: i64 = if v < -AMP_MAX {
            -AMP_MAX
        } else {
            v
        };
        out.push(c);
        i += 1;
    }
    out
}

proof fn lemma_resample_index(i: int, n: int, from: int, to: int)
    requires
        0 <= i,
        1 <= from,
        1 <= to,
        i < n * to / from,
    ensures
        0 <= i * from / to < n,
{
    lemma_mul_inequality(i + 1, n * to / from, from);
    lemma_fundamental_div_mod(n * to, from);
    assert((n * to / from) * from <= n * to);
    assert((i + 1) * from == i * from + from) by (nonlinear_arith);
    assert(i * from <= n * to - from);
    lemma_div_is_ordered(i * from, n * to - 1, to);
    lemma_div_multiples_vanish_fancy(n - 1, to - 1, to);
    assert(to * (n - 1) + (to - 1) == n * to - 1) by (nonlinear_arith);
    assert((n * to - 1) / to == n - 1);
    assert(i * from >= 0) by (nonlinear_arith)
        requires
            i >= 0 && from >= 1,
    ;
}

/// Resample a stream from one rate to another by nearest-frame selection.
/// The frame count scales by exactly the rate ratio — the wall-clock length
/// is preserved — and every output frame is one of the input's frames, taken
/// in order.
pub fn resample(samples: &Vec<i64>, from: u32, to: u32) -> (r: Vec<i64>)
    requires
        from >= 1,
        to >= 1,
        samples@.len() * to as int / from as int <= usize::MAX as int,
    ensures
        r@.len() == samples@.len() * to as int / from as int,
        forall|i: int|
            0 <= i < r@.len() ==> #[trigger] r@[i] == samples@[i * from as int / to as int],
        samples_bounded(samples@) ==> samples_bounded(r@),
{
    let n: usize = samples.len();
    proof {
        assert(n as int * to as int <= u128::MAX as int) by (nonlinear_arith)
            requires
                0 <= n as int <= usize::MAX as int,
                0 <= to as int <= u32::MAX as int,
                usize::MAX as int <= u64::MAX as int,
        ;
    }
    let wide: u128 = (n as u128) * (to as u128) / (from as u128);
    let out_n: usize = wide as usize;
    let mut out: Vec<i64> = Vec::new();
    let mut i: usize = 0;
    while i < out_n
        invariant
            n == samples@.len(),
            from >= 1,
            to >= 1,
            out_n == n as int * to as int / from as int,
            i <= out_n,
            out@.len() == i,
            forall|j: int|
                0 <= j < i ==> #[trigger] out@[j] == samples@[j * from as int / to as int],
        decreases out_n - i,
    {
        proof {
            lemma_resample_index(i as int, n as int, from as int, to as int);
            assert(i as int * from as int <= u128::MAX as int) by (nonlinear_arith)
                requires
                    0 <= i as int <= usize::MAX as int,
                    0 <= from as int <= u32::MAX as int,
                    usize::MAX as int <= u64::MAX as int,
            ;
        }
        let j_wide: u128 = (i as u128) * (from as u128) / (to as u128);
        let j: usize = j_wide as usize;
        out.push(samples[j]);
        i += 1;
    }
    proof {
        if samples_bounded(samples@) {
            assert forall|i: int| 0 <= i < out@.len() implies -(AMP_MAX as int)
                <= #[trigger] out@[i] <= AMP_MAX as int by {
                lemma_resample_index(i, n as int, from as int, to as int);
                assert(out@[i] == samples@[i * from as int / to as int]);
            }
        }
    }
    out
}

/// Down-mix a stereo stream to mono by averaging each pair of channel
/// samples, rounding toward negative infinity.
pub fn stereo_to_mono(samples: &Vec<i64>) -> (r: Vec<i64>)
    requires
        samples@.len() % 2 == 0,
        samples_bounded(samples@),
    ensures
        r@.len() * 2 == samples@.len(),
        forall|i: int|
            0 <= i < r@.len() ==> #[trigger] r@[i] == (samples@[2 * i] + samples@[2 * i + 1]) / 2,
        samples_bounded(r@),
{
    let mut out: Vec<i64> = Vec::new();
    let mut i: usize = 0;
    while i + 1 < samples.len()
        invariant
            samples@.len() % 2 == 0,
            samples_bounded(samples@),
            i % 2 == 0,
            i <= samples@.len(),
            out@.len() * 2 == i,
            forall|j: int|
                0 <= j < out@.len() ==> #[trigger] out@[j] == (samples@[2 * j] + samples@[2 * j
                    + 1]) / 2,
            samples_bounded(out@),
        decreases samples@.len() - i,
    {
        let a: i64 = samples[i];
        let b: i64 = samples[i + 1];
        let m: i64 = half_floor(a + b);
        proof {
            assert(-(AMP_MAX as int) <= (a + b) / 2 <= AMP_MAX as int);
        }
        out.push(m);
        i += 2;
    }
    out
}

} // verus!
