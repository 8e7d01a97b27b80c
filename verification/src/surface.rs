//! Offscreen render targets, modelled by their dimensions.
//!
//! The worker owns two GPU surfaces: the frame surface, sized to the
//! negotiated stream resolution, and a small preview surface whose aspect
//! ratio is locked to that resolution when the session starts.  The GPU
//! objects themselves live with the shell that owns the context; what the
//! orchestration logic depends on — the sizes, and the rule that a surface
//! is recreated rather than resized — is kept here.

use vstd::prelude::*;
use crate::pump::Dims;

verus! {

/// Fixed width of the preview surface, in pixels.
pub const PREVIEW_WIDTH: u32 = 320;

/// The offscreen target the engine renders into: a framebuffer with one
/// backing texture, always exactly as large as the negotiated resolution.
#[derive(Clone, Copy, Debug)]
pub struct FrameSurface {
    pub dims: Dims,
}

impl FrameSurface {
    pub open spec fn wf(self) -> bool {
        self.dims.positive()
    }

    /// Allocate a surface at the negotiated size.  A session whose size
    /// changes gets a new surface; an existing one is never resized.
    pub fn new(dims: Dims) -> (s: FrameSurface)
        requires
            dims.positive(),
        ensures
            s.dims == dims,
            s.wf(),
    {
        FrameSurface { dims }
    }
}

/// The preview height that locks the source's aspect ratio at a width of
/// [`PREVIEW_WIDTH`]: the scaled height, never below one pixel.
pub open spec fn spec_preview_height(full: Dims) -> u32
    recommends
        full.width > 0,
{
    let h = full.height * PREVIEW_WIDTH / (full.width as int);
    if h < 1 {
        1u32
    } else if h > u32::MAX {
        u32::MAX
    } else {
        h as u32
    }
}

/// The fixed downsampled size derived from the negotiated resolution.
pub fn preview_dims(full: Dims) -> (d: Dims)
    requires
        full.positive(),
    ensures
        d.width == PREVIEW_WIDTH,
        d.height == spec_preview_height(full),
        d.positive(),
{
    let scaled: u64 = (full.height as u64) * (PREVIEW_WIDTH as u64) / (full.width as u64);
    let height: u32 = if scaled < 1 {
        1
    } else if scaled > u32::MAX as u64 {
        u32::MAX
    } else {
        scaled as u32
    };
    Dims { width: PREVIEW_WIDTH, height }
}

/// The downsampling target, allocated once per session and reused by every
/// preview tick; its size never changes afterwards.
#[derive(Clone, Copy, Debug)]
pub struct PreviewSurface {
    pub dims: Dims,
}

impl PreviewSurface {
    pub open spec fn wf(self) -> bool {
        self.dims.width == PREVIEW_WIDTH && self.dims.positive()
    }

    /// Allocate the preview surface for a session whose negotiated size is
    /// `full`.
    pub fn new(full: Dims) -> (s: PreviewSurface)
        requires
            full.positive(),
        ensures
            s.dims.width == PREVIEW_WIDTH,
            s.dims.height == spec_preview_height(full),
            s.wf(),
    {
        PreviewSurface { dims: preview_dims(full) }
    }
}

} // verus!
