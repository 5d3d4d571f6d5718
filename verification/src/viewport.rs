//! Viewport validation for a frame.

use vstd::prelude::*;

verus! {

/// Why a frame cannot be rendered. Each is fatal for the frame: there is no
/// degraded rendering.
#[derive(Clone, Copy, PartialEq, Eq, Structural, Debug)]
pub enum RenderPreconditionFailure {
    /// The viewport has no height, so its aspect ratio is undefined.
    ZeroHeight,
    /// The viewport has no width, so its aspect ratio is zero.
    ZeroWidth,
    /// The terrain engine gave no height for the observer's position.
    HeightUnavailable,
}

/// A viewport in pixels.
#[derive(Clone, Copy, PartialEq, Eq, Structural, Debug)]
pub struct Viewport {
    pub width: u32,
    pub height: u32,
}

impl Viewport {
    /// A viewport can be rendered into exactly when it has an area.
    pub open spec fn wf(&self) -> bool {
        self.width != 0 && self.height != 0
    }

    /// What is wrong with a viewport of this size, if anything; a missing
    /// height is named before a missing width.
    pub open spec fn spec_defect(width: u32, height: u32) -> Option<RenderPreconditionFailure> {
        if height == 0 {
            Some(RenderPreconditionFailure::ZeroHeight)
        } else if width == 0 {
            Some(RenderPreconditionFailure::ZeroWidth)
        } else {
            None
        }
    }

    /// Accepts `(width, height)` exactly when neither is zero, and says
    /// otherwise which one is.
    pub fn new(width: u32, height: u32) -> (r: Result<Viewport, RenderPreconditionFailure>)
        ensures
            r is Err <==> Viewport::spec_defect(width, height) is Some,
            r is Err ==> Some(r->Err_0) == Viewport::spec_defect(width, height),
            r is Ok ==> r->Ok_0 == (Viewport { width, height }) && r->Ok_0.wf(),
    {
        if height == 0 {
            Err(RenderPreconditionFailure::ZeroHeight)
        } else if width == 0 {
            Err(RenderPreconditionFailure::ZeroWidth)
        } else {
            Ok(Viewport { width, height })
        }
    }
}

} // verus!
