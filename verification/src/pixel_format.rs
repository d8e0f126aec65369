use vstd::prelude::*;

verus! {

/// Pixel-format tag of one decoded frame.  Each variant corresponds to one
/// integer selector of the fragment program's `tex_format` uniform; the
/// selectors that are declared but have no defined conversion (the remaining
/// Bayer patterns) have no variant here and are rejected at frame intake.
#[derive(Clone, Copy, PartialEq, Eq, Structural, Debug)]
pub enum PixelFormat {
    /// Selector 0: planar YUV, MPEG (limited) range, BT.601 matrix.
    YuvMpeg,
    /// Selector 1: planar YUV, full range, JPEG matrix.
    YuvFull,
    /// Selector 2: packed RGB.
    Rgb,
    /// Selector 3: single gray plane replicated to all channels.
    Gray8,
    /// Selector 6: packed BGR, sampled through the BGR swizzle.
    Bgr,
    /// Selector 8: NV12, chroma interleaved as U then V.
    Nv12,
    /// Selector 9: NV21, chroma interleaved as V then U.
    Nv21,
    /// Selector 10: 10-bit planar YUV, each sample split into a low and a
    /// high byte.
    Yuv10Bit,
    /// Selector 16: 16-bit-range planar YUV, MPEG range.
    Yuv16Mpeg,
    /// Selector 17: 16-bit-range planar YUV, full range.
    Yuv16Full,
    /// Selector 19: Bayer BGGR, converted by direct per-channel sampling.
    BayerBggr,
    /// Selector 23: packed BGR565, sampled through the BGR swizzle.
    Bgr565,
}

impl PixelFormat {
    /// The integer selector that names this format on the wire (the value
    /// handed to the `tex_format` uniform).
    pub open spec fn spec_selector(self) -> i32 {
        match self {
            PixelFormat::YuvMpeg => 0,
            PixelFormat::YuvFull => 1,
            PixelFormat::Rgb => 2,
            PixelFormat::Gray8 => 3,
            PixelFormat::Bgr => 6,
            PixelFormat::Nv12 => 8,
            PixelFormat::Nv21 => 9,
            PixelFormat::Yuv10Bit => 10,
            PixelFormat::Yuv16Mpeg => 16,
            PixelFormat::Yuv16Full => 17,
            PixelFormat::BayerBggr => 19,
            PixelFormat::Bgr565 => 23,
        }
    }

    pub fn selector(self) -> (s: i32)
        ensures
            s == self.spec_selector(),
    {
        match self {
            PixelFormat::YuvMpeg => 0,
            PixelFormat::YuvFull => 1,
            PixelFormat::Rgb => 2,
            PixelFormat::Gray8 => 3,
            PixelFormat::Bgr => 6,
            PixelFormat::Nv12 => 8,
            PixelFormat::Nv21 => 9,
            PixelFormat::Yuv10Bit => 10,
            PixelFormat::Yuv16Mpeg => 16,
            PixelFormat::Yuv16Full => 17,
            PixelFormat::BayerBggr => 19,
            PixelFormat::Bgr565 => 23,
        }
    }

    /// The selector table: the format tag a selector denotes, `None` exactly
    /// on the selectors with no defined conversion.
    pub open spec fn spec_from_selector(s: i32) -> Option<PixelFormat> {
        if s == 0 {
            Some(PixelFormat::YuvMpeg)
        } else if s == 1 {
            Some(PixelFormat::YuvFull)
        } else if s == 2 {
            Some(PixelFormat::Rgb)
        } else if s == 3 {
            Some(PixelFormat::Gray8)
        } else if s == 6 {
            Some(PixelFormat::Bgr)
        } else if s == 8 {
            Some(PixelFormat::Nv12)
        } else if s == 9 {
            Some(PixelFormat::Nv21)
        } else if s == 10 {
            Some(PixelFormat::Yuv10Bit)
        } else if s == 16 {
            Some(PixelFormat::Yuv16Mpeg)
        } else if s == 17 {
            Some(PixelFormat::Yuv16Full)
        } else if s == 19 {
            Some(PixelFormat::BayerBggr)
        } else if s == 23 {
            Some(PixelFormat::Bgr565)
        } else {
            None
        }
    }

    /// Whether an integer selector denotes a format with a defined
    /// conversion.
    pub open spec fn supported_selector(s: i32) -> bool {
        PixelFormat::spec_from_selector(s) is Some
    }

    /// Maps a selector back to its format tag; `None` exactly on the
    /// selectors with no defined conversion.
    pub fn from_selector(s: i32) -> (r: Option<PixelFormat>)
        ensures
            r == PixelFormat::spec_from_selector(s),
            r matches Some(f) ==> f.spec_selector() == s,
    {
        match s {
            0 => Some(PixelFormat::YuvMpeg),
            1 => Some(PixelFormat::YuvFull),
            2 => Some(PixelFormat::Rgb),
            3 => Some(PixelFormat::Gray8),
            6 => Some(PixelFormat::Bgr),
            8 => Some(PixelFormat::Nv12),
            9 => Some(PixelFormat::Nv21),
            10 => Some(PixelFormat::Yuv10Bit),
            16 => Some(PixelFormat::Yuv16Mpeg),
            17 => Some(PixelFormat::Yuv16Full),
            19 => Some(PixelFormat::BayerBggr),
            23 => Some(PixelFormat::Bgr565),
            _ => None,
        }
    }

    /// The 4:2:0 formats carry chroma at half resolution in both axes; all
    /// other formats keep the chroma planes at luma resolution.
    pub open spec fn spec_chroma_subsampled(self) -> bool {
        match self {
            PixelFormat::YuvMpeg => true,
            PixelFormat::YuvFull => true,
            PixelFormat::Nv12 => true,
            PixelFormat::Nv21 => true,
            PixelFormat::Yuv16Mpeg => true,
            PixelFormat::Yuv16Full => true,
            _ => false,
        }
    }

    pub fn chroma_subsampled(self) -> (b: bool)
        ensures
            b == self.spec_chroma_subsampled(),
    {
        match self {
            PixelFormat::YuvMpeg => true,
            PixelFormat::YuvFull => true,
            PixelFormat::Nv12 => true,
            PixelFormat::Nv21 => true,
            PixelFormat::Yuv16Mpeg => true,
            PixelFormat::Yuv16Full => true,
            _ => false,
        }
    }

    /// Bytes of texture storage per sample: the 10-bit planar format splits
    /// each sample into a low and a high byte, every other format stores one
    /// byte per sample.
    pub open spec fn spec_bytes_per_sample(self) -> u32 {
        if self == PixelFormat::Yuv10Bit {
            2
        } else {
            1
        }
    }

    pub fn bytes_per_sample(self) -> (b: u32)
        ensures
            b == self.spec_bytes_per_sample(),
    {
        if let PixelFormat::Yuv10Bit = self {
            2
        } else {
            1
        }
    }

    /// Chroma plane width derived from the luma width: `ceil(width / 2)`
    /// for 4:2:0 formats, `width` otherwise.
    pub open spec fn spec_chroma_width(self, width: u32) -> int {
        if self.spec_chroma_subsampled() {
            (width + 1) / 2
        } else {
            width as int
        }
    }

    pub fn chroma_width(self, width: u32) -> (w: u32)
        ensures
            w == self.spec_chroma_width(width),
    {
        if self.chroma_subsampled() {
            width / 2 + width % 2
        } else {
            width
        }
    }

    /// Chroma plane height derived from the luma height: `ceil(height / 2)`
    /// for 4:2:0 formats, `height` otherwise.
    pub open spec fn spec_chroma_height(self, height: u32) -> int {
        if self.spec_chroma_subsampled() {
            (height + 1) / 2
        } else {
            height as int
        }
    }

    pub fn chroma_height(self, height: u32) -> (h: u32)
        ensures
            h == self.spec_chroma_height(height),
    {
        if self.chroma_subsampled() {
            height / 2 + height % 2
        } else {
            height
        }
    }

    /// Whether a `width` by `height` frame of this format fits the texel
    /// budget of the texture model (row and per-plane byte counts stay
    /// within `u32`).
    pub open spec fn spec_dims_fit(self, width: u32, height: u32) -> bool {
        &&& width * self.spec_bytes_per_sample() <= u32::MAX
        &&& width * height * self.spec_bytes_per_sample() <= u32::MAX
    }

    pub fn dims_fit(self, width: u32, height: u32) -> (b: bool)
        ensures
            b == self.spec_dims_fit(width, height),
    {
        let bps = self.bytes_per_sample();
        proof {
            assert((width as int) * (height as int) * (bps as int) <= u128::MAX)
                by (nonlinear_arith)
                requires
                    width <= u32::MAX,
                    height <= u32::MAX,
                    bps <= 2,
            ;
            assert((width as int) * (bps as int) <= u64::MAX) by (nonlinear_arith)
                requires
                    width <= u32::MAX,
                    bps <= 2,
            ;
        }
        let row_bytes: u64 = (width as u64) * (bps as u64);
        let texel_bytes: u128 = (width as u128) * (height as u128) * (bps as u128);
        row_bytes <= u32::MAX as u64 && texel_bytes <= u32::MAX as u128
    }

    /// Bytes in one row of the luma plane.
    pub open spec fn spec_luma_row_bytes(self, width: u32) -> int {
        width * self.spec_bytes_per_sample()
    }

    pub fn luma_row_bytes(self, width: u32) -> (b: u32)
        requires
            width * self.spec_bytes_per_sample() <= u32::MAX,
        ensures
            b == self.spec_luma_row_bytes(width),
    {
        width * self.bytes_per_sample()
    }

    /// Bytes in one row of either chroma plane.
    pub open spec fn spec_chroma_row_bytes(self, width: u32) -> int {
        self.spec_chroma_width(width) * self.spec_bytes_per_sample()
    }

    pub fn chroma_row_bytes(self, width: u32) -> (b: u32)
        requires
            width * self.spec_bytes_per_sample() <= u32::MAX,
        ensures
            b == self.spec_chroma_row_bytes(width),
    {
        self.chroma_width(width) * self.bytes_per_sample()
    }
}

} // verus!
