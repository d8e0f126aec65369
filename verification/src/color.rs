use vstd::prelude::*;

use crate::pixel_format::PixelFormat;

verus! {

/// One sampled texel: the four 8-bit channels a sampler hands the fragment
/// program.  A single-channel texture fills only `r`; the interleaved-chroma
/// formats read `g`, the 10-bit formats read `a` as the high byte.
#[derive(Clone, Copy, PartialEq, Eq, Structural, Debug)]
pub struct Texel {
    pub r: u8,
    pub g: u8,
    pub b: u8,
    pub a: u8,
}

/// One output color in signed fixed point: a channel value of `FIX_ONE`
/// stands for 1.0 of normalized color.  The conversion is exact rational
/// arithmetic, so a channel may leave `[0, FIX_ONE]`; the surface clamps on
/// write, as the GPU does.
#[derive(Clone, Copy, PartialEq, Eq, Structural, Debug)]
pub struct RgbaFixed {
    pub r: i64,
    pub g: i64,
    pub b: i64,
    pub a: i64,
}

/// Fixed-point scale of one full unit of normalized color, chosen so that
/// every term of every conversion path is an integer: it is divisible by 255
/// (8-bit samples), by 16 (the MPEG luma offset 1/16), by 1023 (10-bit
/// samples) and by 100000 (the matrix coefficients).
pub const FIX_ONE: i64 = 417_384_000_000;  // 255 * 16 * 1023 * 100_000

/// One 8-bit sample step: `FIX_ONE / 255`.
pub const SAMPLE_STEP: i64 = 1_636_800_000;

/// One 10-bit sample step: `FIX_ONE / 1023`.
pub const TEN_BIT_STEP: i64 = 408_000_000;

/// The MPEG-range luma offset 0.0625: `FIX_ONE / 16`.
pub const MPEG_LUMA_OFFSET: i64 = 26_086_500_000;

/// The unit carrying centered chroma values, `FIX_ONE / 100_000`, so that
/// one multiply by a scaled matrix coefficient is exact.
pub const COEFF_UNIT: i64 = 4_173_840;

/// BT.601 MPEG-range matrix coefficient 1.596 (Cr into R), times 100000.
pub const MPEG_R_CR: i64 = 159_600;

/// BT.601 MPEG-range matrix coefficient 0.813 (Cr out of G), times 100000.
pub const MPEG_G_CR: i64 = 81_300;

/// BT.601 MPEG-range matrix coefficient 0.391 (Cb out of G), times 100000.
pub const MPEG_G_CB: i64 = 39_100;

/// BT.601 MPEG-range matrix coefficient 2.018 (Cb into B), times 100000.
pub const MPEG_B_CB: i64 = 201_800;

/// Full-range JPEG matrix coefficient 1.402 (Cr into R), times 100000.
pub const FULL_R_CR: i64 = 140_200;

/// Full-range JPEG matrix coefficient 0.34413 (Cb out of G), times 100000.
pub const FULL_G_CB: i64 = 34_413;

/// Full-range JPEG matrix coefficient 0.71414 (Cr out of G), times 100000.
pub const FULL_G_CR: i64 = 71_414;

/// Full-range JPEG matrix coefficient 1.772 (Cb into B), times 100000.
pub const FULL_B_CB: i64 = 177_200;

/// Luma term of an MPEG-range 8-bit sample, `v/255 - 0.0625`, scaled by
/// `FIX_ONE`.
pub open spec fn spec_luma_mpeg(v: u8) -> int {
    v * SAMPLE_STEP - MPEG_LUMA_OFFSET
}

/// Luma term of a full-range 8-bit sample, `v/255`, scaled by `FIX_ONE`.
pub open spec fn spec_luma_full(v: u8) -> int {
    v * SAMPLE_STEP
}

/// Centered chroma value of an 8-bit sample, `v/255 - 0.5`, scaled by
/// `FIX_ONE / 100_000` (`COEFF_UNIT`).
pub open spec fn spec_chroma_centered(v: u8) -> int {
    v * 16_368 - 2_086_920
}

/// A 10-bit sample reassembled from its low and high byte.
pub open spec fn spec_ten_bit_value(low: u8, high: u8) -> int {
    low + 256 * high
}

/// Luma term of a 10-bit sample, `value/1023 - 16/255`, scaled by `FIX_ONE`.
pub open spec fn spec_luma_ten_bit(low: u8, high: u8) -> int {
    spec_ten_bit_value(low, high) * TEN_BIT_STEP - 16 * SAMPLE_STEP
}

/// Centered chroma of a 10-bit sample, `value/1023 - 0.5`, scaled by
/// `FIX_ONE / 100_000`.
pub open spec fn spec_chroma_ten_bit(low: u8, high: u8) -> int {
    spec_ten_bit_value(low, high) * 4_080 - 2_086_920
}

/// The BT.601 MPEG-range matrix on a luma term and two centered chroma
/// values: `R = y + 1.596 cr`, `G = y - 0.813 cr - 0.391 cb`,
/// `B = y + 2.018 cb`.
pub open spec fn spec_mpeg_matrix(y: int, cb: int, cr: int) -> (int, int, int) {
    (y + MPEG_R_CR * cr, y - MPEG_G_CR * cr - MPEG_G_CB * cb, y + MPEG_B_CB * cb)
}

/// The full-range JPEG matrix on a luma term and two centered chroma
/// values: `R = y + 1.402 cr`, `G = y - 0.34413 cb - 0.71414 cr`,
/// `B = y + 1.772 cb`.
pub open spec fn spec_full_matrix(y: int, cb: int, cr: int) -> (int, int, int) {
    (y + FULL_R_CR * cr, y - FULL_G_CB * cb - FULL_G_CR * cr, y + FULL_B_CB * cb)
}

/// Gray value: every channel carries the plain sample.
pub open spec fn spec_gray(v: u8) -> (int, int, int) {
    (v * SAMPLE_STEP, v * SAMPLE_STEP, v * SAMPLE_STEP)
}

/// The RGB result of the conversion for `format`, given the texels sampled
/// from the three planes, in `FIX_ONE` fixed point.
///
/// The packed BGR path swizzles twice (once when sampling, once when
/// assembling the output), which cancels, so it reads the texel channels
/// in place just as the packed RGB path does.
pub open spec fn spec_convert(format: PixelFormat, ty: Texel, tu: Texel, tv: Texel) -> (
    int,
    int,
    int,
) {
    match format {
        PixelFormat::YuvMpeg | PixelFormat::Yuv16Mpeg => spec_mpeg_matrix(
            spec_luma_mpeg(ty.r),
            spec_chroma_centered(tu.r),
            spec_chroma_centered(tv.r),
        ),
        PixelFormat::YuvFull | PixelFormat::Yuv16Full => spec_full_matrix(
            spec_luma_full(ty.r),
            spec_chroma_centered(tu.r),
            spec_chroma_centered(tv.r),
        ),
        PixelFormat::Rgb | PixelFormat::Bgr => (
            ty.r * SAMPLE_STEP,
            ty.g * SAMPLE_STEP,
            ty.b * SAMPLE_STEP,
        ),
        PixelFormat::Gray8 => spec_gray(ty.r),
        PixelFormat::Nv12 => spec_mpeg_matrix(
            spec_luma_mpeg(ty.r),
            spec_chroma_centered(tu.r),
            spec_chroma_centered(tu.g),
        ),
        PixelFormat::Nv21 => spec_mpeg_matrix(
            spec_luma_mpeg(ty.r),
            spec_chroma_centered(tu.g),
            spec_chroma_centered(tu.r),
        ),
        PixelFormat::Yuv10Bit => spec_mpeg_matrix(
            spec_luma_ten_bit(ty.r, ty.a),
            spec_chroma_ten_bit(tu.r, tu.a),
            spec_chroma_ten_bit(tv.r, tv.a),
        ),
        PixelFormat::BayerBggr => (ty.r * SAMPLE_STEP, tu.r * SAMPLE_STEP, tv.r * SAMPLE_STEP),
        PixelFormat::Bgr565 => (ty.b * SAMPLE_STEP, ty.g * SAMPLE_STEP, ty.r * SAMPLE_STEP),
    }
}

fn luma_mpeg(v: u8) -> (y: i64)
    ensures
        y == spec_luma_mpeg(v),
{
    (v as i64) * SAMPLE_STEP - MPEG_LUMA_OFFSET
}

fn luma_full(v: u8) -> (y: i64)
    ensures
        y == spec_luma_full(v),
{
    (v as i64) * SAMPLE_STEP
}

fn chroma_centered(v: u8) -> (c: i64)
    ensures
        c == spec_chroma_centered(v),
{
    (v as i64) * 16_368 - 2_086_920
}

fn luma_ten_bit(low: u8, high: u8) -> (y: i64)
    ensures
        y == spec_luma_ten_bit(low, high),
{
    ((low as i64) + 256 * (high as i64)) * TEN_BIT_STEP - 16 * SAMPLE_STEP
}

fn chroma_ten_bit(low: u8, high: u8) -> (c: i64)
    ensures
        c == spec_chroma_ten_bit(low, high),
{
    ((low as i64) + 256 * (high as i64)) * 4_080 - 2_086_920
}

fn mpeg_matrix(y: i64, cb: i64, cr: i64) -> (c: (i64, i64, i64))
    requires
        -27_000_000_000_000 <= y <= 27_000_000_000_000,
        -270_000_000 <= cb <= 270_000_000,
        -270_000_000 <= cr <= 270_000_000,
    ensures
        (c.0 as int, c.1 as int, c.2 as int) == spec_mpeg_matrix(y as int, cb as int, cr as int),
{
    (y + MPEG_R_CR * cr, y - MPEG_G_CR * cr - MPEG_G_CB * cb, y + MPEG_B_CB * cb)
}

fn full_matrix(y: i64, cb: i64, cr: i64) -> (c: (i64, i64, i64))
    requires
        -27_000_000_000_000 <= y <= 27_000_000_000_000,
        -270_000_000 <= cb <= 270_000_000,
        -270_000_000 <= cr <= 270_000_000,
    ensures
        (c.0 as int, c.1 as int, c.2 as int) == spec_full_matrix(y as int, cb as int, cr as int),
{
    (y + FULL_R_CR * cr, y - FULL_G_CB * cb - FULL_G_CR * cr, y + FULL_B_CB * cb)
}

fn scale_sample(v: u8) -> (s: i64)
    ensures
        s == v * SAMPLE_STEP,
{
    (v as i64) * SAMPLE_STEP
}

/// CPU model of the fragment program: converts the texels sampled from the
/// three planes under `format` and sets the alpha channel from the `alpha`
/// uniform, exactly as `spec_convert` states.
pub fn convert_texels(format: PixelFormat, ty: Texel, tu: Texel, tv: Texel, alpha: u8) -> (c:
    RgbaFixed)
    ensures
        c.r == spec_convert(format, ty, tu, tv).0,
        c.g == spec_convert(format, ty, tu, tv).1,
        c.b == spec_convert(format, ty, tu, tv).2,
        c.a == alpha * SAMPLE_STEP,
{
    let (r, g, b): (i64, i64, i64) = match format {
        PixelFormat::YuvMpeg | PixelFormat::Yuv16Mpeg => mpeg_matrix(
            luma_mpeg(ty.r),
            chroma_centered(tu.r),
            chroma_centered(tv.r),
        ),
        PixelFormat::YuvFull | PixelFormat::Yuv16Full => full_matrix(
            luma_full(ty.r),
            chroma_centered(tu.r),
            chroma_centered(tv.r),
        ),
        PixelFormat::Rgb | PixelFormat::Bgr => (
            scale_sample(ty.r),
            scale_sample(ty.g),
            scale_sample(ty.b),
        ),
        PixelFormat::Gray8 => (scale_sample(ty.r), scale_sample(ty.r), scale_sample(ty.r)),
        PixelFormat::Nv12 => mpeg_matrix(
            luma_mpeg(ty.r),
            chroma_centered(tu.r),
            chroma_centered(tu.g),
        ),
        PixelFormat::Nv21 => mpeg_matrix(
            luma_mpeg(ty.r),
            chroma_centered(tu.g),
            chroma_centered(tu.r),
        ),
        PixelFormat::Yuv10Bit => mpeg_matrix(
            luma_ten_bit(ty.r, ty.a),
            chroma_ten_bit(tu.r, tu.a),
            chroma_ten_bit(tv.r, tv.a),
        ),
        PixelFormat::BayerBggr => (scale_sample(ty.r), scale_sample(tu.r), scale_sample(tv.r)),
        PixelFormat::Bgr565 => (scale_sample(ty.b), scale_sample(ty.g), scale_sample(ty.r)),
    };
    RgbaFixed { r, g, b, a: scale_sample(alpha) }
}

/// Chroma-neutral input leaves the MPEG-range conversion gray: with both
/// chroma samples at 128, each channel sits a fixed, luma-independent
/// quantization offset away from the luma term itself, and every offset is
/// smaller than two 8-bit sample steps.  (The offset is not zero because
/// the 8-bit midpoint 128/255 sits just above 1/2.)
pub proof fn lemma_chroma_neutral_mpeg(format: PixelFormat, ty: Texel, tu: Texel, tv: Texel)
    requires
        format == PixelFormat::YuvMpeg || format == PixelFormat::Yuv16Mpeg,
        tu.r == 128,
        tv.r == 128,
    ensures
        spec_convert(format, ty, tu, tv).0 == spec_luma_mpeg(ty.r) + 8_184 * MPEG_R_CR,
        spec_convert(format, ty, tu, tv).1 == spec_luma_mpeg(ty.r) - 8_184 * (MPEG_G_CR
            + MPEG_G_CB),
        spec_convert(format, ty, tu, tv).2 == spec_luma_mpeg(ty.r) + 8_184 * MPEG_B_CB,
        spec_luma_mpeg(ty.r) - 2 * SAMPLE_STEP < spec_convert(format, ty, tu, tv).0
            < spec_luma_mpeg(ty.r) + 2 * SAMPLE_STEP,
        spec_luma_mpeg(ty.r) - 2 * SAMPLE_STEP < spec_convert(format, ty, tu, tv).1
            < spec_luma_mpeg(ty.r) + 2 * SAMPLE_STEP,
        spec_luma_mpeg(ty.r) - 2 * SAMPLE_STEP < spec_convert(format, ty, tu, tv).2
            < spec_luma_mpeg(ty.r) + 2 * SAMPLE_STEP,
{
    assert(spec_chroma_centered(128) == 8_184);
}

/// Chroma-neutral input leaves the full-range conversion gray: with both
/// chroma samples at 128, each channel sits a fixed, luma-independent
/// quantization offset away from the luma term `y * SAMPLE_STEP`, and every
/// offset is smaller than one 8-bit sample step.
pub proof fn lemma_chroma_neutral_full(format: PixelFormat, ty: Texel, tu: Texel, tv: Texel)
    requires
        format == PixelFormat::YuvFull || format == PixelFormat::Yuv16Full,
        tu.r == 128,
        tv.r == 128,
    ensures
        spec_convert(format, ty, tu, tv).0 == spec_luma_full(ty.r) + 8_184 * FULL_R_CR,
        spec_convert(format, ty, tu, tv).1 == spec_luma_full(ty.r) - 8_184 * (FULL_G_CB
            + FULL_G_CR),
        spec_convert(format, ty, tu, tv).2 == spec_luma_full(ty.r) + 8_184 * FULL_B_CB,
        spec_luma_full(ty.r) - SAMPLE_STEP < spec_convert(format, ty, tu, tv).0 < spec_luma_full(
            ty.r,
        ) + SAMPLE_STEP,
        spec_luma_full(ty.r) - SAMPLE_STEP < spec_convert(format, ty, tu, tv).1 < spec_luma_full(
            ty.r,
        ) + SAMPLE_STEP,
        spec_luma_full(ty.r) - SAMPLE_STEP < spec_convert(format, ty, tu, tv).2 < spec_luma_full(
            ty.r,
        ) + SAMPLE_STEP,
{
    assert(spec_chroma_centered(128) == 8_184);
}

} // verus!
