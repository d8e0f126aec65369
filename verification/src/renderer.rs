use vstd::prelude::*;

use crate::error::RenderError;
use crate::frame::{plane_ok, DecodedFrame};
use crate::pacing::Pacer;
use crate::pixel_format::PixelFormat;
use crate::texture::{packed_plane, PlaneView, TextureSet, TextureSetView};

verus! {

/// The texture cache: empty until the first frame arrives, then one whole
/// texture set.  The three plane textures only ever exist together.
pub enum TextureCache {
    Uninitialized,
    Ready(TextureSet),
}

/// Ghost image of the renderer: the texture set if one exists, how many
/// sets have ever been allocated, and the pacing counter.
#[verifier::ext_equal]
pub struct RendererView {
    pub tex: Option<TextureSetView>,
    pub allocations: int,
    pub pacer: Pacer,
}

/// Whether a frame geometry forces the cache to be rebuilt: the cache is
/// empty, or its recorded width, height or format differs.
pub open spec fn spec_needs_recreate(
    tex: Option<TextureSetView>,
    width: u32,
    height: u32,
    format: PixelFormat,
) -> bool {
    match tex {
        Option::None => true,
        Option::Some(t) => t.width != width || t.height != height || t.format != format,
    }
}

/// The texture-cache step: allocates a fresh, cleared set (counting one
/// allocation) exactly when no set exists or the geometry or format
/// changed; otherwise leaves the state untouched.
pub open spec fn spec_ensure_textures(
    v: RendererView,
    width: u32,
    height: u32,
    format: PixelFormat,
) -> (RendererView, bool) {
    if spec_needs_recreate(v.tex, width, height, format) {
        (
            RendererView {
                tex: Some(TextureSet::spec_fresh(width, height, format)),
                allocations: v.allocations + 1,
                pacer: v.pacer,
            },
            true,
        )
    } else {
        (v, false)
    }
}

/// The upload step on the ghost image: every plane texture (and its staging
/// buffer) now holds the tightly packed bytes of the matching frame plane.
pub open spec fn spec_upload_frame(v: RendererView, frame: DecodedFrame) -> RendererView {
    match v.tex {
        Option::None => v,
        Option::Some(t) => RendererView {
            tex: Some(
                TextureSetView {
                    width: t.width,
                    height: t.height,
                    format: t.format,
                    y: PlaneView {
                        rows: t.y.rows,
                        row_bytes: t.y.row_bytes,
                        texels: packed_plane(
                            frame.y@,
                            frame.y_line_size as int,
                            t.y.rows as int,
                            t.y.row_bytes as int,
                        ),
                    },
                    u: PlaneView {
                        rows: t.u.rows,
                        row_bytes: t.u.row_bytes,
                        texels: packed_plane(
                            frame.u@,
                            frame.u_line_size as int,
                            t.u.rows as int,
                            t.u.row_bytes as int,
                        ),
                    },
                    v: PlaneView {
                        rows: t.v.rows,
                        row_bytes: t.v.row_bytes,
                        texels: packed_plane(
                            frame.v@,
                            frame.v_line_size as int,
                            t.v.rows as int,
                            t.v.row_bytes as int,
                        ),
                    },
                },
            ),
            allocations: v.allocations,
            pacer: v.pacer,
        },
    }
}

/// One whole presentation step on the ghost image: a malformed frame is
/// rejected with the state untouched; otherwise the textures are recreated
/// exactly when the geometry or format changed, and the three planes are
/// staged and uploaded.
pub open spec fn spec_render_frame(v: RendererView, frame: DecodedFrame) -> (
    RendererView,
    Result<bool, RenderError>,
) {
    if !(frame.format.spec_dims_fit(frame.width, frame.height) && frame.strides_fit()) {
        (v, Err(RenderError::GpuResourceError))
    } else if !frame.planes_big_enough() {
        (v, Err(RenderError::PlaneSizeMismatch))
    } else {
        let (v1, recreated) = spec_ensure_textures(v, frame.width, frame.height, frame.format);
        (spec_upload_frame(v1, frame), Ok(recreated))
    }
}

/// The renderer's CPU state: the texture cache with its recreate-on-change
/// policy, the allocation counter, and the frame-rate pacer.  The thin GPU
/// shell mirrors every decision this state makes onto the real surface.
pub struct GliumRenderer {
    pub textures: TextureCache,
    pub allocations: u64,
    pub pacer: Pacer,
}

impl View for GliumRenderer {
    type V = RendererView;

    open spec fn view(&self) -> RendererView {
        RendererView {
            tex: match self.textures {
                TextureCache::Uninitialized => None,
                TextureCache::Ready(ts) => Some(ts@),
            },
            allocations: self.allocations as int,
            pacer: self.pacer,
        }
    }
}

impl GliumRenderer {
    /// The cache invariant: a ready texture set is well formed.
    pub open spec fn wf(self) -> bool {
        match self.textures {
            TextureCache::Uninitialized => true,
            TextureCache::Ready(ts) => ts.wf(),
        }
    }

    /// A renderer with an empty texture cache, no allocations performed, and
    /// a pacing period starting at time zero.
    pub fn new() -> (r: GliumRenderer)
        ensures
            r.wf(),
            r@.tex is None,
            r@.allocations == 0,
            r@.pacer.period_start_ms == 0,
            r@.pacer.frames == 0,
    {
        GliumRenderer {
            textures: TextureCache::Uninitialized,
            allocations: 0,
            pacer: Pacer::new(0),
        }
    }

    /// Recreates the three textures and staging buffers exactly when the
    /// frame geometry or format changed since the previous frame (or none
    /// exist yet); otherwise reuses them untouched.  Returns whether a
    /// recreation, one allocation, happened.
    pub fn ensure_textures(&mut self, width: u32, height: u32, format: PixelFormat) -> (recreated:
        bool)
        requires
            old(self).wf(),
            format.spec_dims_fit(width, height),
            old(self).allocations < u64::MAX,
        ensures
            final(self).wf(),
            (final(self)@, recreated) == spec_ensure_textures(old(self)@, width, height, format),
    {
        let needs = match &self.textures {
            TextureCache::Uninitialized => true,
            TextureCache::Ready(ts) => ts.width != width || ts.height != height || ts.format
                != format,
        };
        if needs {
            self.textures = TextureCache::Ready(TextureSet::recreate(width, height, format));
            self.allocations = self.allocations + 1;
            true
        } else {
            false
        }
    }

    /// One presentation step for one frame: validates it, recreates the
    /// textures when its geometry or format changed, then stages and uploads
    /// the three planes.  Returns whether the textures were recreated.  A
    /// malformed frame is signalled and skipped: the state, and so the
    /// previous frame's texture contents, stays exactly as it was.
    pub fn render_frame(&mut self, frame: &DecodedFrame) -> (r: Result<bool, RenderError>)
        requires
            old(self).wf(),
            old(self).allocations < u64::MAX,
        ensures
            final(self).wf(),
            (final(self)@, r) == spec_render_frame(old(self)@, *frame),
    {
        if !(frame.format.dims_fit(frame.width, frame.height) && frame.y_line_size <= u32::MAX
            as usize && frame.u_line_size <= u32::MAX as usize && frame.v_line_size <= u32::MAX
            as usize) {
            return Err(RenderError::GpuResourceError);
        }
        let luma_rb = frame.format.luma_row_bytes(frame.width);
        let chroma_rb = frame.format.chroma_row_bytes(frame.width);
        let chroma_rows = frame.format.chroma_height(frame.height);
        let y_ok = plane_ok(frame.y.len(), frame.y_line_size, luma_rb, frame.height);
        let u_ok = plane_ok(frame.u.len(), frame.u_line_size, chroma_rb, chroma_rows);
        let v_ok = plane_ok(frame.v.len(), frame.v_line_size, chroma_rb, chroma_rows);
        if !(y_ok && u_ok && v_ok) {
            return Err(RenderError::PlaneSizeMismatch);
        }
        let recreated = self.ensure_textures(frame.width, frame.height, frame.format);
        let upload_result = match &mut self.textures {
            TextureCache::Ready(ts) => ts.upload_frame(frame),
            TextureCache::Uninitialized => {
                proof {
                    assert(false);
                }
                Err(RenderError::PlaneSizeMismatch)
            },
        };
        proof {
            assert(upload_result is Ok);
        }
        Ok(recreated)
    }
}

/// Texture recreation is idempotent: a second cache step with the same
/// width, height and format recreates nothing, allocates nothing, and
/// leaves the state exactly as the first step left it.
pub proof fn lemma_ensure_textures_idempotent(
    v: RendererView,
    width: u32,
    height: u32,
    format: PixelFormat,
)
    ensures
        ({
            let (v1, _) = spec_ensure_textures(v, width, height, format);
            let (v2, recreated2) = spec_ensure_textures(v1, width, height, format);
            &&& !recreated2
            &&& v2 == v1
            &&& v2.allocations == v1.allocations
        }),
{
}

/// When the width, height or format differs from the cached key, or no set
/// exists, the cache step recreates exactly once, and the new set carries
/// the derived plane dimensions: luma at frame resolution, chroma rows and
/// width halved (rounded up) for the 4:2:0 formats and at frame resolution
/// for all others.
pub proof fn lemma_recreate_on_change(
    v: RendererView,
    width: u32,
    height: u32,
    format: PixelFormat,
)
    requires
        spec_needs_recreate(v.tex, width, height, format),
        format.spec_dims_fit(width, height),
    ensures
        ({
            let (v1, recreated) = spec_ensure_textures(v, width, height, format);
            &&& recreated
            &&& v1.allocations == v.allocations + 1
            &&& v1.tex matches Some(t)
            &&& v1.tex matches Some(t) ==> {
                &&& t.width == width
                &&& t.height == height
                &&& t.format == format
                &&& t.y.rows == height
                &&& t.y.row_bytes == format.spec_luma_row_bytes(width)
                &&& t.u.rows == format.spec_chroma_height(height)
                &&& t.u.row_bytes == format.spec_chroma_row_bytes(width)
                &&& t.v.rows == format.spec_chroma_height(height)
                &&& t.v.row_bytes == format.spec_chroma_row_bytes(width)
                &&& format.spec_chroma_subsampled() ==> t.u.rows == ((height as int) + 1) / 2
                    && format.spec_chroma_width(width) == ((width as int) + 1) / 2
                &&& !format.spec_chroma_subsampled() ==> t.u.rows == height
                    && format.spec_chroma_width(width) == width
            }
        }),
{
    let cw = format.spec_chroma_width(width);
    let bps = format.spec_bytes_per_sample() as int;
    assert(0 <= cw <= width);
    assert(cw * bps <= (width as int) * bps) by (nonlinear_arith)
        requires
            0 <= cw <= width as int,
            0 <= bps,
    ;
    assert(0 <= format.spec_chroma_height(height) <= height);
}

/// A format change alone, at identical width and height, is sufficient to
/// force recreation.
pub proof fn lemma_format_change_recreates(
    v: RendererView,
    width: u32,
    height: u32,
    format: PixelFormat,
)
    requires
        v.tex matches Some(t) && t.width == width && t.height == height && t.format != format,
    ensures
        spec_ensure_textures(v, width, height, format).1,
{
}

/// Two consecutive well-formed frames of identical dimensions and format
/// never trigger texture recreation: rendering the second one allocates
/// nothing and only replaces the uploaded texel bytes.
pub proof fn lemma_second_frame_only_uploads(
    v: RendererView,
    first: DecodedFrame,
    second: DecodedFrame,
)
    requires
        first.well_formed(),
        second.well_formed(),
        second.width == first.width,
        second.height == first.height,
        second.format == first.format,
    ensures
        ({
            let (v1, r1) = spec_render_frame(v, first);
            let (v2, r2) = spec_render_frame(v1, second);
            &&& r1 == Ok::<bool, RenderError>(spec_needs_recreate(
                v.tex,
                first.width,
                first.height,
                first.format,
            ))
            &&& r2 == Ok::<bool, RenderError>(false)
            &&& v2.allocations == v1.allocations
            &&& v2 == spec_upload_frame(v1, second)
        }),
{
}

} // verus!
