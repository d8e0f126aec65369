use yuv_render::PixelFormat;

#[test]
fn selector_round_trip() {
    let formats = [
        PixelFormat::YuvMpeg,
        PixelFormat::YuvFull,
        PixelFormat::Rgb,
        PixelFormat::Gray8,
        PixelFormat::Bgr,
        PixelFormat::Nv12,
        PixelFormat::Nv21,
        PixelFormat::Yuv10Bit,
        PixelFormat::Yuv16Mpeg,
        PixelFormat::Yuv16Full,
        PixelFormat::BayerBggr,
        PixelFormat::Bgr565,
    ];
    for f in formats {
        assert_eq!(PixelFormat::from_selector(f.selector()), Some(f));
    }
}

#[test]
fn selector_values() {
    assert_eq!(PixelFormat::YuvMpeg.selector(), 0);
    assert_eq!(PixelFormat::YuvFull.selector(), 1);
    assert_eq!(PixelFormat::Rgb.selector(), 2);
    assert_eq!(PixelFormat::Gray8.selector(), 3);
    assert_eq!(PixelFormat::Bgr.selector(), 6);
    assert_eq!(PixelFormat::Nv12.selector(), 8);
    assert_eq!(PixelFormat::Nv21.selector(), 9);
    assert_eq!(PixelFormat::Yuv10Bit.selector(), 10);
    assert_eq!(PixelFormat::Yuv16Mpeg.selector(), 16);
    assert_eq!(PixelFormat::Yuv16Full.selector(), 17);
    assert_eq!(PixelFormat::BayerBggr.selector(), 19);
    assert_eq!(PixelFormat::Bgr565.selector(), 23);
}

#[test]
fn unsupported_selectors_rejected() {
    // The undefined Bayer patterns and every other unknown selector have no
    // format tag.
    for s in [-1, 4, 5, 7, 11, 12, 13, 14, 15, 18, 20, 21, 22, 24, 100] {
        assert_eq!(PixelFormat::from_selector(s), None);
    }
}

#[test]
fn chroma_dims_subsampled_round_up() {
    // 4:2:0 formats halve both axes, rounding up.
    assert_eq!(PixelFormat::YuvMpeg.chroma_width(1920), 960);
    assert_eq!(PixelFormat::YuvMpeg.chroma_height(1080), 540);
    assert_eq!(PixelFormat::YuvMpeg.chroma_width(641), 321);
    assert_eq!(PixelFormat::YuvMpeg.chroma_height(361), 181);
    assert_eq!(PixelFormat::Nv12.chroma_width(7), 4);
    assert_eq!(PixelFormat::Yuv16Full.chroma_height(1), 1);
    assert_eq!(PixelFormat::YuvFull.chroma_width(0), 0);
}

#[test]
fn chroma_dims_full_resolution() {
    // RGB, gray, Bayer, BGR565 and the 10-bit planar format keep chroma at
    // luma resolution.
    for f in [
        PixelFormat::Rgb,
        PixelFormat::Gray8,
        PixelFormat::Bgr,
        PixelFormat::Yuv10Bit,
        PixelFormat::BayerBggr,
        PixelFormat::Bgr565,
    ] {
        assert_eq!(f.chroma_width(641), 641);
        assert_eq!(f.chroma_height(361), 361);
    }
}

#[test]
fn bytes_per_sample_and_rows() {
    assert_eq!(PixelFormat::Yuv10Bit.bytes_per_sample(), 2);
    assert_eq!(PixelFormat::YuvMpeg.bytes_per_sample(), 1);
    assert_eq!(PixelFormat::Yuv10Bit.luma_row_bytes(640), 1280);
    assert_eq!(PixelFormat::YuvMpeg.luma_row_bytes(640), 640);
    assert_eq!(PixelFormat::YuvMpeg.chroma_row_bytes(640), 320);
    assert_eq!(PixelFormat::Yuv10Bit.chroma_row_bytes(640), 1280);
}
