use yuv_render::{convert_texels, PixelFormat, Texel, MPEG_LUMA_OFFSET, SAMPLE_STEP};

fn texel(r: u8, g: u8, b: u8, a: u8) -> Texel {
    Texel { r, g, b, a }
}

fn luma_only(v: u8) -> Texel {
    texel(v, 0, 0, 0)
}

#[test]
fn mpeg_matrix_exact() {
    // Format 0 on Y=100, U=50, V=200, every term exact in fixed point.
    let c = convert_texels(
        PixelFormat::YuvMpeg,
        luma_only(100),
        luma_only(50),
        luma_only(200),
        255,
    );
    assert_eq!(c.r, 326_987_628_000);
    assert_eq!(c.g, 90_715_548_000);
    assert_eq!(c.b, -118_393_836_000);
    assert_eq!(c.a, 255 * SAMPLE_STEP);
}

#[test]
fn full_matrix_exact() {
    // Format 1 on the same samples: no luma offset, JPEG coefficients.
    let c = convert_texels(
        PixelFormat::YuvFull,
        luma_only(100),
        luma_only(50),
        luma_only(200),
        0,
    );
    assert_eq!(c.r, 330_052_536_000);
    assert_eq!(c.g, 122_588_013_240);
    assert_eq!(c.b, -61_101_744_000);
    assert_eq!(c.a, 0);
}

#[test]
fn sixteen_bit_range_formats_match_eight_bit_paths() {
    // Selectors 16 and 17 sample and convert exactly as 0 and 1 do.
    let (ty, tu, tv) = (luma_only(100), luma_only(50), luma_only(200));
    let mpeg8 = convert_texels(PixelFormat::YuvMpeg, ty, tu, tv, 9);
    let mpeg16 = convert_texels(PixelFormat::Yuv16Mpeg, ty, tu, tv, 9);
    assert_eq!(mpeg8, mpeg16);
    let full8 = convert_texels(PixelFormat::YuvFull, ty, tu, tv, 9);
    let full16 = convert_texels(PixelFormat::Yuv16Full, ty, tu, tv, 9);
    assert_eq!(full8, full16);
}

#[test]
fn rgb_and_bgr_pass_through() {
    // The packed RGB path reads the texel in place; the packed BGR path
    // swizzles twice, which cancels.
    let t = texel(10, 20, 30, 0);
    for f in [PixelFormat::Rgb, PixelFormat::Bgr] {
        let c = convert_texels(f, t, luma_only(0), luma_only(0), 255);
        assert_eq!(c.r, 10 * SAMPLE_STEP);
        assert_eq!(c.g, 20 * SAMPLE_STEP);
        assert_eq!(c.b, 30 * SAMPLE_STEP);
    }
}

#[test]
fn bgr565_swizzles() {
    let c = convert_texels(
        PixelFormat::Bgr565,
        texel(1, 2, 3, 0),
        luma_only(0),
        luma_only(0),
        255,
    );
    assert_eq!(c.r, 3 * SAMPLE_STEP);
    assert_eq!(c.g, 2 * SAMPLE_STEP);
    assert_eq!(c.b, 1 * SAMPLE_STEP);
}

#[test]
fn gray8_replicates_luma() {
    let c = convert_texels(
        PixelFormat::Gray8,
        luma_only(77),
        luma_only(0),
        luma_only(0),
        255,
    );
    assert_eq!(c.r, 77 * SAMPLE_STEP);
    assert_eq!(c.g, 77 * SAMPLE_STEP);
    assert_eq!(c.b, 77 * SAMPLE_STEP);
}

#[test]
fn bayer_bggr_samples_per_channel() {
    let c = convert_texels(
        PixelFormat::BayerBggr,
        luma_only(10),
        luma_only(20),
        luma_only(30),
        255,
    );
    assert_eq!(c.r, 10 * SAMPLE_STEP);
    assert_eq!(c.g, 20 * SAMPLE_STEP);
    assert_eq!(c.b, 30 * SAMPLE_STEP);
}

#[test]
fn nv12_and_nv21_swap_interleaved_chroma() {
    // NV12 reads U from the first interleaved channel and V from the second;
    // NV21 reads them the other way around.
    let ty = luma_only(100);
    let nv12 = convert_texels(PixelFormat::Nv12, ty, texel(50, 200, 0, 0), luma_only(0), 1);
    let nv21 = convert_texels(PixelFormat::Nv21, ty, texel(200, 50, 0, 0), luma_only(0), 1);
    assert_eq!(nv12, nv21);
    // And NV12 on interleaved (U=50, V=200) equals planar MPEG on the same
    // samples.
    let planar = convert_texels(PixelFormat::YuvMpeg, ty, luma_only(50), luma_only(200), 1);
    assert_eq!(nv12.r, planar.r);
    assert_eq!(nv12.g, planar.g);
    assert_eq!(nv12.b, planar.b);
}

#[test]
fn ten_bit_reconstruction_exact() {
    // Low byte in `r`, high byte in `a`: luma 1024/1023 minus the 16/255
    // offset, chroma 512/1023 centered.
    let ty = texel(0, 0, 0, 4);
    let tu = texel(0, 0, 0, 2);
    let tv = texel(0, 0, 0, 2);
    let c = convert_texels(PixelFormat::Yuv10Bit, ty, tu, tv, 255);
    assert_eq!(c.r, 391_928_784_000);
    assert_eq!(c.g, 391_357_584_000);
    assert_eq!(c.b, 392_014_872_000);
}

#[test]
fn chroma_neutral_mpeg_is_gray_up_to_quantization() {
    // U = V = 128 leaves every channel a fixed offset below two sample steps
    // away from the luma gray level, for both MPEG-range selectors.
    for f in [PixelFormat::YuvMpeg, PixelFormat::Yuv16Mpeg] {
        for y in [0u8, 16, 100, 200, 255] {
            let gray = (y as i64) * SAMPLE_STEP - MPEG_LUMA_OFFSET;
            let c = convert_texels(f, luma_only(y), luma_only(128), luma_only(128), 255);
            assert_eq!(c.r - gray, 1_306_166_400);
            assert_eq!(c.g - gray, -985_353_600);
            assert_eq!(c.b - gray, 1_651_531_200);
            assert!((c.r - gray).abs() < 2 * SAMPLE_STEP);
            assert!((c.g - gray).abs() < 2 * SAMPLE_STEP);
            assert!((c.b - gray).abs() < 2 * SAMPLE_STEP);
        }
    }
}

#[test]
fn chroma_neutral_full_is_luma_up_to_quantization() {
    for f in [PixelFormat::YuvFull, PixelFormat::Yuv16Full] {
        for y in [0u8, 16, 100, 200, 255] {
            let gray = (y as i64) * SAMPLE_STEP;
            let c = convert_texels(f, luma_only(y), luma_only(128), luma_only(128), 255);
            assert_eq!(c.r - gray, 1_147_396_800);
            assert_eq!(c.g - gray, -866_088_168);
            assert_eq!(c.b - gray, 1_450_204_800);
            assert!((c.r - gray).abs() < SAMPLE_STEP);
            assert!((c.g - gray).abs() < SAMPLE_STEP);
            assert!((c.b - gray).abs() < SAMPLE_STEP);
        }
    }
}

#[test]
fn mpeg_black_level_is_near_zero() {
    // Y=16, U=V=128 under format 0: black, within two 8-bit steps of zero on
    // every channel.
    let c = convert_texels(
        PixelFormat::YuvMpeg,
        luma_only(16),
        luma_only(128),
        luma_only(128),
        255,
    );
    assert_eq!(c.r, 1_408_466_400);
    assert_eq!(c.g, -883_053_600);
    assert_eq!(c.b, 1_753_831_200);
    assert!(c.r.abs() < 2 * SAMPLE_STEP);
    assert!(c.g.abs() < 2 * SAMPLE_STEP);
    assert!(c.b.abs() < 2 * SAMPLE_STEP);
}
