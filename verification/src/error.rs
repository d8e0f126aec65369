use vstd::prelude::*;

verus! {

/// Recoverable per-frame errors of the presentation path.  None of them may
/// bring the render loop down: the frame is skipped and the previous
/// texture contents stay on screen.
#[derive(Clone, Copy, PartialEq, Eq, Structural, Debug)]
pub enum RenderError {
    /// A plane's byte length is smaller than `line_size * rows` for that
    /// plane, or its stride is smaller than one packed row.
    PlaneSizeMismatch,
    /// The frame names a format selector with no defined conversion.
    UnsupportedFormat,
    /// The frame is too large for the texture allocator's budget.
    GpuResourceError,
}

} // verus!
