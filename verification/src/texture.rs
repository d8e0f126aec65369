use vstd::prelude::*;

use vstd::arithmetic::div_mod::lemma_fundamental_div_mod_converse;

use crate::error::RenderError;
use crate::frame::{plane_big_enough, plane_ok, zero_bytes, DecodedFrame};
use crate::pixel_format::PixelFormat;

verus! {

/// Ghost image of one plane texture: its geometry and its texel bytes.
#[verifier::ext_equal]
pub struct PlaneView {
    pub rows: u32,
    pub row_bytes: u32,
    pub texels: Seq<u8>,
}

/// A cleared plane of the given geometry: every texel byte is zero.
pub open spec fn cleared_plane(rows: u32, row_bytes: u32) -> PlaneView {
    PlaneView { rows, row_bytes, texels: Seq::new((rows * row_bytes) as nat, |i: int| 0u8) }
}

/// The tightly packed image of a strided plane: entry `i` of the result is
/// byte `(i / row_bytes) * line_size + (i % row_bytes)` of the source, so
/// each of the `rows` rows contributes its first `row_bytes` bytes and the
/// stride padding is skipped.
pub open spec fn packed_plane(data: Seq<u8>, line_size: int, rows: int, row_bytes: int) -> Seq<
    u8,
> {
    Seq::new(
        (rows * row_bytes) as nat,
        |i: int| data[(i / row_bytes) * line_size + (i % row_bytes)],
    )
}

/// Row-major addressing of a packed plane: entry `(x, y)` is source byte
/// `y * line_size + x`, so a packed upload reproduces the source rows
/// exactly.
pub proof fn lemma_packed_plane_index(
    data: Seq<u8>,
    line_size: int,
    rows: int,
    row_bytes: int,
    x: int,
    y: int,
)
    requires
        0 <= x < row_bytes,
        0 <= y < rows,
    ensures
        packed_plane(data, line_size, rows, row_bytes)[y * row_bytes + x] == data[y * line_size
            + x],
{
    assert(0 <= y * row_bytes + x < rows * row_bytes) by (nonlinear_arith)
        requires
            0 <= x < row_bytes,
            0 <= y < rows,
    ;
    lemma_fundamental_div_mod_converse(y * row_bytes + x, row_bytes, y, x);
}

/// One plane texture of the GPU model: `rows` rows of `row_bytes` texel
/// bytes, stored row-major.
pub struct PlaneTexture {
    pub rows: u32,
    pub row_bytes: u32,
    pub texels: Vec<u8>,
}

impl View for PlaneTexture {
    type V = PlaneView;

    open spec fn view(&self) -> PlaneView {
        PlaneView { rows: self.rows, row_bytes: self.row_bytes, texels: self.texels@ }
    }
}

impl PlaneTexture {
    /// The texel store covers exactly the plane's geometry.
    pub open spec fn wf(self) -> bool {
        self.texels@.len() == self.rows * self.row_bytes
    }

    /// Allocates a cleared plane texture of the given geometry.
    pub fn new_cleared(rows: u32, row_bytes: u32) -> (t: PlaneTexture)
        requires
            rows * row_bytes <= u32::MAX,
        ensures
            t.wf(),
            t@ == cleared_plane(rows, row_bytes),
    {
        proof {
            assert((rows as int) * (row_bytes as int) >= 0) by (nonlinear_arith);
        }
        let texels = zero_bytes((rows as usize) * (row_bytes as usize));
        let t = PlaneTexture { rows, row_bytes, texels };
        proof {
            assert(t@.texels =~= cleared_plane(rows, row_bytes).texels);
        }
        t
    }

    /// The texel byte in column `x` of row `y`.
    pub fn sample(&self, x: u32, y: u32) -> (b: u8)
        requires
            self.wf(),
            x < self.row_bytes,
            y < self.rows,
        ensures
            b == self@.texels[y * self.row_bytes + x],
    {
        let len = self.texels.len();
        proof {
            assert((y as int) * (self.row_bytes as int) + (x as int) < len) by (nonlinear_arith)
                requires
                    x < self.row_bytes,
                    y < self.rows,
                    len == (self.rows as int) * (self.row_bytes as int),
            ;
        }
        let idx: usize = (y as usize) * (self.row_bytes as usize) + (x as usize);
        self.texels[idx]
    }
}

/// One write-combined transfer buffer: pixel bytes are staged here before
/// the asynchronous copy into the plane texture.
pub struct StagingBuffer {
    pub data: Vec<u8>,
}

impl View for StagingBuffer {
    type V = Seq<u8>;

    open spec fn view(&self) -> Seq<u8> {
        self.data@
    }
}

/// Copies one byte buffer into a fresh one.
fn copy_bytes(src: &Vec<u8>) -> (dst: Vec<u8>)
    ensures
        dst@ == src@,
{
    let mut dst: Vec<u8> = Vec::new();
    let mut i: usize = 0;
    while i < src.len()
        invariant
            i <= src@.len(),
            dst@.len() == i,
            forall|j: int| 0 <= j < i ==> dst@[j] == src@[j],
        decreases src@.len() - i,
    {
        dst.push(src[i]);
        i = i + 1;
    }
    proof {
        assert(dst@ =~= src@);
    }
    dst
}

/// Stages one plane and performs the texture copy: packs the strided source
/// rows tightly into the staging buffer, then copies the staged bytes into
/// the plane texture.  A source smaller than the plane's geometry demands is
/// signalled as `PlaneSizeMismatch` and nothing is touched.
#[verifier::loop_isolation(false)]
pub fn upload_plane(
    texture: &mut PlaneTexture,
    staging: &mut StagingBuffer,
    data: &Vec<u8>,
    line_size: usize,
) -> (r: Result<(), RenderError>)
    requires
        old(texture).wf(),
        old(staging)@.len() == old(texture)@.texels.len(),
        line_size <= u32::MAX,
    ensures
        final(texture).rows == old(texture).rows,
        final(texture).row_bytes == old(texture).row_bytes,
        final(texture).wf(),
        final(staging)@.len() == old(staging)@.len(),
        match r {
            Ok(()) => {
                &&& plane_big_enough(
                    data@.len() as int,
                    line_size as int,
                    old(texture).row_bytes as int,
                    old(texture).rows as int,
                )
                &&& final(staging)@ == packed_plane(
                    data@,
                    line_size as int,
                    old(texture).rows as int,
                    old(texture).row_bytes as int,
                )
                &&& final(texture)@.texels == final(staging)@
            },
            Err(e) => {
                &&& e == RenderError::PlaneSizeMismatch
                &&& !plane_big_enough(
                    data@.len() as int,
                    line_size as int,
                    old(texture).row_bytes as int,
                    old(texture).rows as int,
                )
                &&& *final(texture) == *old(texture)
                &&& *final(staging) == *old(staging)
            },
        },
{
    let rows = texture.rows;
    let row_bytes = texture.row_bytes;
    if !plane_ok(data.len(), line_size, row_bytes, rows) {
        return Err(RenderError::PlaneSizeMismatch);
    }
    let mut packed: Vec<u8> = Vec::new();
    let mut y: u32 = 0;
    while y < rows
        invariant
            y <= rows,
            packed@.len() == y * row_bytes,
            forall|i: int|
                0 <= i < packed@.len() ==> packed@[i] == data@[(i / (row_bytes as int)) * (
                line_size as int) + (i % (row_bytes as int))],
        decreases rows - y,
    {
        let mut x: u32 = 0;
        while x < row_bytes
            invariant
                y < rows,
                x <= row_bytes,
                packed@.len() == y * row_bytes + x,
                forall|i: int|
                    0 <= i < packed@.len() ==> packed@[i] == data@[(i / (row_bytes as int)) * (
                    line_size as int) + (i % (row_bytes as int))],
            decreases row_bytes - x,
        {
            proof {
                assert((y as int) * (line_size as int) + x < data@.len()) by (nonlinear_arith)
                    requires
                        y < rows,
                        x < row_bytes,
                        row_bytes <= line_size,
                        data@.len() >= (line_size as int) * (rows as int),
                ;
            }
            let src_idx: usize = (y as usize) * line_size + (x as usize);
            packed.push(data[src_idx]);
            proof {
                let i = (y as int) * (row_bytes as int) + (x as int);
                lemma_fundamental_div_mod_converse(
                    i,
                    row_bytes as int,
                    y as int,
                    x as int,
                );
            }
            x = x + 1;
        }
        proof {
            assert(((y as int) + 1) * (row_bytes as int) == (y as int) * (row_bytes as int) + (
            row_bytes as int)) by (nonlinear_arith);
        }
        y = y + 1;
    }
    proof {
        assert((rows as int) * (row_bytes as int) == packed@.len());
        assert(packed@ =~= packed_plane(
            data@,
            line_size as int,
            rows as int,
            row_bytes as int,
        ));
    }
    staging.data = packed;
    texture.texels = copy_bytes(&staging.data);
    Ok(())
}

/// Ghost image of a full texture set: the geometry key it was built for and
/// the three plane images.
#[verifier::ext_equal]
pub struct TextureSetView {
    pub width: u32,
    pub height: u32,
    pub format: PixelFormat,
    pub y: PlaneView,
    pub u: PlaneView,
    pub v: PlaneView,
}

/// The three plane textures and their staging buffers, sized for one frame
/// geometry.  All three exist together: the set is only ever built whole.
pub struct TextureSet {
    pub width: u32,
    pub height: u32,
    pub format: PixelFormat,
    pub y_texture: PlaneTexture,
    pub u_texture: PlaneTexture,
    pub v_texture: PlaneTexture,
    pub y_staging: StagingBuffer,
    pub u_staging: StagingBuffer,
    pub v_staging: StagingBuffer,
}

impl View for TextureSet {
    type V = TextureSetView;

    open spec fn view(&self) -> TextureSetView {
        TextureSetView {
            width: self.width,
            height: self.height,
            format: self.format,
            y: self.y_texture@,
            u: self.u_texture@,
            v: self.v_texture@,
        }
    }
}

impl TextureSet {
    /// The set's invariant: the luma plane has one row per frame row and one
    /// packed luma row of bytes per row; the chroma planes have the format's
    /// derived chroma geometry; and each staging buffer matches its plane.
    pub open spec fn wf(self) -> bool {
        &&& self.format.spec_dims_fit(self.width, self.height)
        &&& self.y_texture.rows == self.height
        &&& self.y_texture.row_bytes == self.format.spec_luma_row_bytes(self.width)
        &&& self.u_texture.rows == self.format.spec_chroma_height(self.height)
        &&& self.u_texture.row_bytes == self.format.spec_chroma_row_bytes(self.width)
        &&& self.v_texture.rows == self.format.spec_chroma_height(self.height)
        &&& self.v_texture.row_bytes == self.format.spec_chroma_row_bytes(self.width)
        &&& self.y_texture.wf()
        &&& self.u_texture.wf()
        &&& self.v_texture.wf()
        &&& self.y_staging@.len() == self.y_texture@.texels.len()
        &&& self.u_staging@.len() == self.u_texture@.texels.len()
        &&& self.v_staging@.len() == self.v_texture@.texels.len()
    }

    /// The image of a freshly allocated set for one frame geometry: three
    /// cleared planes with the derived per-plane dimensions.
    pub open spec fn spec_fresh(width: u32, height: u32, format: PixelFormat) -> TextureSetView {
        TextureSetView {
            width,
            height,
            format,
            y: cleared_plane(height, format.spec_luma_row_bytes(width) as u32),
            u: cleared_plane(
                format.spec_chroma_height(height) as u32,
                format.spec_chroma_row_bytes(width) as u32,
            ),
            v: cleared_plane(
                format.spec_chroma_height(height) as u32,
                format.spec_chroma_row_bytes(width) as u32,
            ),
        }
    }

    /// Allocates the three plane textures and staging buffers for one frame
    /// geometry, cleared.
    pub fn recreate(width: u32, height: u32, format: PixelFormat) -> (t: TextureSet)
        requires
            format.spec_dims_fit(width, height),
        ensures
            t.wf(),
            t@ == TextureSet::spec_fresh(width, height, format),
    {
        let luma_rb = format.luma_row_bytes(width);
        let chroma_rb = format.chroma_row_bytes(width);
        let chroma_rows = format.chroma_height(height);
        proof {
            let w = width as int;
            let h = height as int;
            let bps = format.spec_bytes_per_sample() as int;
            let cw = format.spec_chroma_width(width);
            let ch = format.spec_chroma_height(height);
            assert(0 <= cw <= w && 0 <= ch <= h);
            assert(h * (w * bps) <= u32::MAX && ch * (cw * bps) <= u32::MAX)
                by (nonlinear_arith)
                requires
                    0 <= cw <= w,
                    0 <= ch <= h,
                    0 <= bps,
                    w * h * bps <= u32::MAX,
            ;
        }
        let y_texture = PlaneTexture::new_cleared(height, luma_rb);
        let u_texture = PlaneTexture::new_cleared(chroma_rows, chroma_rb);
        let v_texture = PlaneTexture::new_cleared(chroma_rows, chroma_rb);
        let y_len = y_texture.texels.len();
        let u_len = u_texture.texels.len();
        let v_len = v_texture.texels.len();
        let t = TextureSet {
            width,
            height,
            format,
            y_texture,
            u_texture,
            v_texture,
            y_staging: StagingBuffer { data: zero_bytes(y_len) },
            u_staging: StagingBuffer { data: zero_bytes(u_len) },
            v_staging: StagingBuffer { data: zero_bytes(v_len) },
        };
        proof {
            assert(t@ =~= TextureSet::spec_fresh(width, height, format));
        }
        t
    }

    /// Stages and uploads all three planes of one frame whose geometry
    /// matches this set.  A plane smaller than its declared geometry is
    /// signalled as `PlaneSizeMismatch` before anything is staged, so on
    /// error the set, and what is on screen, stays as it was.
    pub fn upload_frame(&mut self, frame: &DecodedFrame) -> (r: Result<(), RenderError>)
        requires
            old(self).wf(),
            old(self).width == frame.width,
            old(self).height == frame.height,
            old(self).format == frame.format,
            frame.strides_fit(),
        ensures
            final(self).wf(),
            final(self).width == old(self).width,
            final(self).height == old(self).height,
            final(self).format == old(self).format,
            final(self).y_texture.rows == old(self).y_texture.rows,
            final(self).y_texture.row_bytes == old(self).y_texture.row_bytes,
            final(self).u_texture.rows == old(self).u_texture.rows,
            final(self).u_texture.row_bytes == old(self).u_texture.row_bytes,
            final(self).v_texture.rows == old(self).v_texture.rows,
            final(self).v_texture.row_bytes == old(self).v_texture.row_bytes,
            match r {
                Ok(()) => {
                    &&& frame.planes_big_enough()
                    &&& final(self).y_texture@.texels == packed_plane(
                        frame.y@,
                        frame.y_line_size as int,
                        old(self).y_texture.rows as int,
                        old(self).y_texture.row_bytes as int,
                    )
                    &&& final(self).u_texture@.texels == packed_plane(
                        frame.u@,
                        frame.u_line_size as int,
                        old(self).u_texture.rows as int,
                        old(self).u_texture.row_bytes as int,
                    )
                    &&& final(self).v_texture@.texels == packed_plane(
                        frame.v@,
                        frame.v_line_size as int,
                        old(self).v_texture.rows as int,
                        old(self).v_texture.row_bytes as int,
                    )
                    &&& final(self).y_staging@ == final(self).y_texture@.texels
                    &&& final(self).u_staging@ == final(self).u_texture@.texels
                    &&& final(self).v_staging@ == final(self).v_texture@.texels
                },
                Err(e) => {
                    &&& e == RenderError::PlaneSizeMismatch
                    &&& !frame.planes_big_enough()
                    &&& *final(self) == *old(self)
                },
            },
    {
        let y_ok = plane_ok(
            frame.y.len(),
            frame.y_line_size,
            self.y_texture.row_bytes,
            self.y_texture.rows,
        );
        let u_ok = plane_ok(
            frame.u.len(),
            frame.u_line_size,
            self.u_texture.row_bytes,
            self.u_texture.rows,
        );
        let v_ok = plane_ok(
            frame.v.len(),
            frame.v_line_size,
            self.v_texture.row_bytes,
            self.v_texture.rows,
        );
        if !(y_ok && u_ok && v_ok) {
            return Err(RenderError::PlaneSizeMismatch);
        }
        let ry = upload_plane(
            &mut self.y_texture,
            &mut self.y_staging,
            &frame.y,
            frame.y_line_size,
        );
        proof {
            assert(ry is Ok);
        }
        let ru = upload_plane(
            &mut self.u_texture,
            &mut self.u_staging,
            &frame.u,
            frame.u_line_size,
        );
        proof {
            assert(ru is Ok);
        }
        let rv = upload_plane(
            &mut self.v_texture,
            &mut self.v_staging,
            &frame.v,
            frame.v_line_size,
        );
        proof {
            assert(rv is Ok);
        }
        Ok(())
    }
}

} // verus!
