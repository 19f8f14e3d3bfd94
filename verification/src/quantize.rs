//! PCM quantization: fixed-point samples to integer PCM at a bit depth.
//!
//! A depth of at most 16 scales by the 16-bit signed maximum and clamps to
//! the 16-bit signed range; at most 24 scales by `2^23 - 1` and clamps to
//! the signed 24-bit range; anything above scales by the 32-bit signed
//! maximum and clamps to the 32-bit signed range. Each sample is first
//! clamped to full scale (`[-1.0, 1.0]`, that is `[-FIXED_ONE, FIXED_ONE]`),
//! scaled, rounded to the nearest integer, then clamped to the depth's
//! integer range.

use vstd::prelude::*;

use crate::tracks::FIXED_ONE;

verus! {

/// The scale factor for a bit depth: the largest positive PCM value.
pub open spec fn quant_scale(bits: u32) -> int {
    if bits <= 16 {
        0x7fff
    } else if bits <= 24 {
        0x7f_ffff
    } else {
        0x7fff_ffff
    }
}

/// The smallest PCM value representable at a bit depth.
pub open spec fn quant_min(bits: u32) -> int {
    if bits <= 16 {
        -0x8000
    } else if bits <= 24 {
        -0x80_0000
    } else {
        -0x8000_0000
    }
}

/// Division rounding to the nearest integer, halves away from zero, as
/// float-to-integer rounding behaves.
pub open spec fn round_div_away(a: int, b: int) -> int {
    if a >= 0 {
        (a + b / 2) / b
    } else {
        -((-a + b / 2) / b)
    }
}

/// One quantized sample: clamp to full scale, scale to the depth's maximum,
/// round to nearest, clamp to the depth's range.
pub open spec fn quantize_spec(s: int, bits: u32) -> int {
    let clamped = if s < -(FIXED_ONE as int) {
        -(FIXED_ONE as int)
    } else if s > FIXED_ONE as int {
        FIXED_ONE as int
    } else {
        s
    };
    let scaled = round_div_away(clamped * quant_scale(bits), FIXED_ONE as int);
    if scaled < quant_min(bits) {
        quant_min(bits)
    } else if scaled > quant_scale(bits) {
        quant_scale(bits)
    } else {
        scaled
    }
}

fn quant_scale_exec(bits: u32) -> (r: i64)
    ensures
        r == quant_scale(bits),
{
    if bits <= 16 {
        0x7fff
    } else if bits <= 24 {
        0x7f_ffff
    } else {
        0x7fff_ffff
    }
}

fn quant_min_exec(bits: u32) -> (r: i64)
    ensures
        r == quant_min(bits),
{
    if bits <= 16 {
        -0x8000
    } else if bits <= 24 {
        -0x80_0000
    } else {
        -0x8000_0000
    }
}

/// Quantizes one fixed-point sample to PCM at the given bit depth.
pub fn quantize_sample(s: i32, bits: u32) -> (r: i32)
    ensures
        r == quantize_spec(s as int, bits),
        quant_min(bits) <= r <= quant_scale(bits),
{
    let clamped: i64 = if s < -FIXED_ONE {
        -(FIXED_ONE as i64)
    } else if s > FIXED_ONE {
        FIXED_ONE as i64
    } else {
        s as i64
    };
    let scale = quant_scale_exec(bits);
    let prod: i64 = clamped * scale;
    proof {
        assert(-(FIXED_ONE as int) * 0x7fff_ffff <= (clamped as int) * (scale as int) <= (
        FIXED_ONE as int) * 0x7fff_ffff) by (nonlinear_arith)
            requires
                -(FIXED_ONE as int) <= clamped as int <= FIXED_ONE as int,
                0 < scale as int <= 0x7fff_ffff,
        ;
    }
    let half: i64 = FIXED_ONE as i64 / 2;
    let scaled: i64 = if prod >= 0 {
        (((prod as u64) + (half as u64)) / (FIXED_ONE as u64)) as i64
    } else {
        let neg: u64 = (-prod) as u64;
        -(((neg + (half as u64)) / (FIXED_ONE as u64)) as i64)
    };
    proof {
        assert(scaled == round_div_away((clamped as int) * (scale as int), FIXED_ONE as int));
    }
    let lo = quant_min_exec(bits);
    let out: i64 = if scaled < lo {
        lo
    } else if scaled > scale {
        scale
    } else {
        scaled
    };
    out as i32
}

/// Quantizes one channel of samples.
pub fn quantize_channel(data: &Vec<i32>, bits: u32) -> (r: Vec<i32>)
    ensures
        r@.len() == data@.len(),
        forall|i: int| 0 <= i < r@.len() ==> r@[i] == quantize_spec(data@[i] as int, bits),
{
    let mut r: Vec<i32> = Vec::new();
    let mut i: usize = 0;
    while i < data.len()
        invariant
            i <= data@.len(),
            r@.len() == i,
            forall|j: int| 0 <= j < i ==> r@[j] == quantize_spec(data@[j] as int, bits),
        decreases data@.len() - i,
    {
        r.push(quantize_sample(data[i], bits));
        i = i + 1;
    }
    r
}

/// Quantizes every channel of a mix.
pub fn quantize_channels(channels: &Vec<Vec<i32>>, bits: u32) -> (r: Vec<Vec<i32>>)
    ensures
        r@.len() == channels@.len(),
        forall|c: int|
            0 <= c < r@.len() ==> (#[trigger] r@[c])@.len() == channels@[c]@.len() && forall|i: int|
                0 <= i < r@[c]@.len() ==> r@[c]@[i] == quantize_spec(channels@[c]@[i] as int, bits),
{
    let mut r: Vec<Vec<i32>> = Vec::new();
    let mut c: usize = 0;
    while c < channels.len()
        invariant
            c <= channels@.len(),
            r@.len() == c,
            forall|k: int|
                0 <= k < c ==> (#[trigger] r@[k])@.len() == channels@[k]@.len() && forall|i: int|
                    0 <= i < r@[k]@.len() ==> r@[k]@[i] == quantize_spec(
                        channels@[k]@[i] as int,
                        bits,
                    ),
        decreases channels@.len() - c,
    {
        r.push(quantize_channel(&channels[c], bits));
        c = c + 1;
    }
    r
}

/// Quantizing full scale yields the depth's maximum: at 16 bits, 1.0 maps to
/// the 16-bit signed maximum and -1.0 to its negation, and every sample
/// beyond full scale is clamped before scaling, so it quantizes exactly as
/// full scale does.
pub proof fn lemma_full_scale_quantization(bits: u32)
    ensures
        quantize_spec(FIXED_ONE as int, bits) == quant_scale(bits),
        quantize_spec(-(FIXED_ONE as int), bits) == -quant_scale(bits),
        forall|s: int| s > FIXED_ONE ==> #[trigger] quantize_spec(s, bits) == quantize_spec(FIXED_ONE as int, bits),
        forall|s: int|
            s < -(FIXED_ONE as int) ==> #[trigger] quantize_spec(s, bits) == quantize_spec(
                -(FIXED_ONE as int),
                bits,
            ),
{
    let one = FIXED_ONE as int;
    let k = quant_scale(bits);
    assert((one * k + one / 2) / one == k) by (nonlinear_arith)
        requires
            one == 0x100_0000,
            0 < k <= 0x7fff_ffff,
    ;
    assert(quantize_spec(one, bits) == k);
    assert((-one) * k == -(one * k)) by (nonlinear_arith);
    assert(quantize_spec(-one, bits) == -k);
}

} // verus!
