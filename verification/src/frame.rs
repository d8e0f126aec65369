use vstd::prelude::*;

use crate::error::RenderError;
use crate::pixel_format::PixelFormat;

verus! {

/// Fills a new byte buffer of length `n` with zeros.
pub(crate) fn zero_bytes(n: usize) -> (v: Vec<u8>)
    ensures
        v@.len() == n,
        forall|i: int| 0 <= i < n ==> v@[i] == 0,
{
    let mut v: Vec<u8> = Vec::new();
    let mut i: usize = 0;
    while i < n
        invariant
            i <= n,
            v@.len() == i,
            forall|j: int| 0 <= j < i ==> v@[j] == 0,
        decreases n - i,
    {
        v.push(0);
        i = i + 1;
    }
    v
}

/// One plane buffer is large enough for its geometry: the stride covers a
/// packed row, and the buffer covers `line_size` bytes for each row.
pub open spec fn plane_big_enough(len: int, line_size: int, row_bytes: int, rows: int) -> bool {
    line_size >= row_bytes && len >= line_size * rows
}

pub(crate) fn plane_ok(len: usize, line_size: usize, row_bytes: u32, rows: u32) -> (b: bool)
    requires
        line_size <= u32::MAX,
    ensures
        b == plane_big_enough(len as int, line_size as int, row_bytes as int, rows as int),
{
    if (line_size as u64) < (row_bytes as u64) {
        return false;
    }
    proof {
        assert((line_size as int) * (rows as int) <= u64::MAX) by (nonlinear_arith)
            requires
                line_size <= u32::MAX,
                rows <= u32::MAX,
        ;
    }
    (len as u64) >= (line_size as u64) * (rows as u64)
}

/// The per-plane size conditions of a frame with the given dimensions and
/// format: the luma plane holds `height` rows of at least one packed luma
/// row each, and the two chroma planes hold the format's derived chroma row
/// count.
pub open spec fn spec_frame_planes_ok(
    fmt: PixelFormat,
    width: u32,
    height: u32,
    y_len: int,
    u_len: int,
    v_len: int,
    y_line_size: int,
    u_line_size: int,
    v_line_size: int,
) -> bool {
    &&& plane_big_enough(y_len, y_line_size, fmt.spec_luma_row_bytes(width), height as int)
    &&& plane_big_enough(
        u_len,
        u_line_size,
        fmt.spec_chroma_row_bytes(width),
        fmt.spec_chroma_height(height),
    )
    &&& plane_big_enough(
        v_len,
        v_line_size,
        fmt.spec_chroma_row_bytes(width),
        fmt.spec_chroma_height(height),
    )
}

/// One decoded frame as handed to the renderer: three byte planes with
/// per-plane stride, the frame dimensions, and the pixel-format tag.  The
/// renderer borrows it read-only for the duration of one draw.
#[derive(Debug)]
pub struct DecodedFrame {
    pub width: u32,
    pub height: u32,
    pub format: PixelFormat,
    pub y: Vec<u8>,
    pub u: Vec<u8>,
    pub v: Vec<u8>,
    pub y_line_size: usize,
    pub u_line_size: usize,
    pub v_line_size: usize,
}

impl DecodedFrame {
    /// The strides fit the 32-bit row model of the upload path.
    pub open spec fn strides_fit(self) -> bool {
        self.y_line_size <= u32::MAX && self.u_line_size <= u32::MAX && self.v_line_size
            <= u32::MAX
    }

    /// Every plane buffer is large enough for the frame's geometry.
    pub open spec fn planes_big_enough(self) -> bool {
        spec_frame_planes_ok(
            self.format,
            self.width,
            self.height,
            self.y@.len() as int,
            self.u@.len() as int,
            self.v@.len() as int,
            self.y_line_size as int,
            self.u_line_size as int,
            self.v_line_size as int,
        )
    }

    /// The frame invariant `new` establishes: the dimensions fit the texture
    /// budget, the strides fit the row model, and every plane is large
    /// enough.
    pub open spec fn well_formed(self) -> bool {
        &&& self.format.spec_dims_fit(self.width, self.height)
        &&& self.strides_fit()
        &&& self.planes_big_enough()
    }

    /// Frame intake: validates a raw frame against the declared geometry and
    /// format selector, so that nothing malformed reaches the render path.
    /// Rejects, in this order: a selector with no defined conversion, a
    /// frame beyond the texture budget (or with an absurd stride), and a
    /// plane buffer smaller than its declared geometry.
    pub fn new(
        width: u32,
        height: u32,
        selector: i32,
        y: Vec<u8>,
        u: Vec<u8>,
        v: Vec<u8>,
        y_line_size: usize,
        u_line_size: usize,
        v_line_size: usize,
    ) -> (r: Result<DecodedFrame, RenderError>)
        ensures
            match r {
                Ok(f) => {
                    &&& PixelFormat::spec_from_selector(selector) == Some(f.format)
                    &&& f.width == width
                    &&& f.height == height
                    &&& f.y@ == y@
                    &&& f.u@ == u@
                    &&& f.v@ == v@
                    &&& f.y_line_size == y_line_size
                    &&& f.u_line_size == u_line_size
                    &&& f.v_line_size == v_line_size
                    &&& f.well_formed()
                },
                Err(e) => {
                    ||| (e == RenderError::UnsupportedFormat && PixelFormat::spec_from_selector(
                        selector,
                    ) is None)
                    ||| (PixelFormat::spec_from_selector(selector) matches Some(fmt) && e
                        == RenderError::GpuResourceError && !(fmt.spec_dims_fit(width, height)
                        && y_line_size <= u32::MAX && u_line_size <= u32::MAX && v_line_size
                        <= u32::MAX))
                    ||| (PixelFormat::spec_from_selector(selector) matches Some(fmt) && e
                        == RenderError::PlaneSizeMismatch && fmt.spec_dims_fit(width, height)
                        && y_line_size <= u32::MAX && u_line_size <= u32::MAX && v_line_size
                        <= u32::MAX && !spec_frame_planes_ok(
                        fmt,
                        width,
                        height,
                        y@.len() as int,
                        u@.len() as int,
                        v@.len() as int,
                        y_line_size as int,
                        u_line_size as int,
                        v_line_size as int,
                    ))
                },
            },
    {
        let format = match PixelFormat::from_selector(selector) {
            Some(f) => f,
            None => {
                return Err(RenderError::UnsupportedFormat);
            },
        };
        if !(format.dims_fit(width, height) && y_line_size <= u32::MAX as usize && u_line_size
            <= u32::MAX as usize && v_line_size <= u32::MAX as usize) {
            return Err(RenderError::GpuResourceError);
        }
        let luma_rows = height;
        let chroma_rows = format.chroma_height(height);
        let luma_row_bytes = format.luma_row_bytes(width);
        let chroma_row_bytes = format.chroma_row_bytes(width);
        if !(plane_ok(y.len(), y_line_size, luma_row_bytes, luma_rows) && plane_ok(
            u.len(),
            u_line_size,
            chroma_row_bytes,
            chroma_rows,
        ) && plane_ok(v.len(), v_line_size, chroma_row_bytes, chroma_rows)) {
            return Err(RenderError::PlaneSizeMismatch);
        }
        Ok(
            DecodedFrame {
                width,
                height,
                format,
                y,
                u,
                v,
                y_line_size,
                u_line_size,
                v_line_size,
            },
        )
    }
}

/// One canned decoded frame, as the fixed-size test source supplies it: a
/// full-resolution luma plane and quarter-resolution chroma planes for a
/// 1920 by 1080 4:2:0 frame.
#[derive(Clone)]
pub struct FfmpegDecodedPacket {
    pub y: Vec<u8>,
    pub u: Vec<u8>,
    pub v: Vec<u8>,
}

impl FfmpegDecodedPacket {
    /// Stride of the packet's planes: one packed row.
    pub open spec fn spec_line_size(index: int) -> int {
        if index == 0 {
            1920
        } else {
            960
        }
    }

    /// The plane the given index selects: Y, U or V.
    pub open spec fn spec_plane(self, index: int) -> Seq<u8> {
        if index == 0 {
            self.y@
        } else if index == 1 {
            self.u@
        } else {
            self.v@
        }
    }

    /// An all-zero 1920 by 1080 frame with quarter-size chroma planes.
    pub fn blank() -> (r: FfmpegDecodedPacket)
        ensures
            r.y@.len() == 1920 * 1080,
            r.u@.len() == 1920 * 1080 / 4,
            r.v@.len() == 1920 * 1080 / 4,
            forall|i: int| 0 <= i < r.y@.len() ==> r.y@[i] == 0,
            forall|i: int| 0 <= i < r.u@.len() ==> r.u@[i] == 0,
            forall|i: int| 0 <= i < r.v@.len() ==> r.v@[i] == 0,
    {
        FfmpegDecodedPacket {
            y: zero_bytes(1920 * 1080),
            u: zero_bytes(1920 * 1080 / 4),
            v: zero_bytes(1920 * 1080 / 4),
        }
    }

    #[inline]
    pub fn get_width(&self) -> (w: u32)
        ensures
            w == 1920,
    {
        1920
    }

    #[inline]
    pub fn get_height(&self) -> (h: u32)
        ensures
            h == 1080,
    {
        1080
    }

    #[inline]
    pub fn get_line_size(&self, index: usize) -> (s: usize)
        requires
            index < 3,
        ensures
            s == Self::spec_line_size(index as int),
    {
        match index {
            0 => 1920,
            1 => 1920 / 2,
            _ => 1920 / 2,
        }
    }

    #[inline]
    pub fn data(&self, index: usize) -> (d: &[u8])
        requires
            index < 3,
        ensures
            d@ == self.spec_plane(index as int),
    {
        match index {
            0 => self.y.as_slice(),
            1 => self.u.as_slice(),
            _ => self.v.as_slice(),
        }
    }
}

} // verus!
