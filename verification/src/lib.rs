//! Verified core of a planar-YUV video renderer.
//!
//! Decoded frames arrive as three byte planes (Y, U, V) with per-plane
//! stride and a pixel-format tag.  The library models and verifies the
//! CPU side of the presentation pipeline: the texture cache and its
//! recreate-on-change policy, the stride-respecting staging/upload path,
//! an exact fixed-point model of the fragment program's colorspace
//! conversion, and the frame-rate pacing counter.  The GPU surface
//! itself (window, GL context, draw calls) is an external collaborator
//! that a thin unverified shell drives from the decisions made here.

mod color;
mod error;
mod frame;
mod pacing;
mod pixel_format;
mod renderer;
mod texture;

pub use color::{
    convert_texels, lemma_chroma_neutral_full, lemma_chroma_neutral_mpeg, RgbaFixed, Texel,
    COEFF_UNIT, FIX_ONE, FULL_B_CB, FULL_G_CB, FULL_G_CR, FULL_R_CR, MPEG_B_CB, MPEG_G_CB,
    MPEG_G_CR, MPEG_LUMA_OFFSET, MPEG_R_CR, SAMPLE_STEP, TEN_BIT_STEP,
};
pub use error::RenderError;
pub use frame::{plane_big_enough, spec_frame_planes_ok, DecodedFrame, FfmpegDecodedPacket};
pub use pacing::{Pacer, REPORT_INTERVAL_MS, TICK_INTERVAL_MS};
pub use pixel_format::PixelFormat;
pub use renderer::{
    lemma_ensure_textures_idempotent, lemma_format_change_recreates, lemma_recreate_on_change,
    lemma_second_frame_only_uploads, spec_ensure_textures, spec_needs_recreate, spec_render_frame,
    spec_upload_frame, GliumRenderer, RendererView, TextureCache,
};
pub use texture::{cleared_plane, lemma_packed_plane_index, packed_plane, upload_plane, PlaneTexture,
    PlaneView, StagingBuffer, TextureSet, TextureSetView};
