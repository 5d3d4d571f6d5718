//! What a frame needs before any matrix is built: a viewport with an area,
//! and the eye's distance from the planet's centre.

use crate::geodetic::{spec_radial_distance, GeodeticPosition};
use crate::viewport::{RenderPreconditionFailure, Viewport};
use vstd::prelude::*;

verus! {

/// The checked inputs of one frame.
#[derive(Clone, Copy, PartialEq, Eq, Structural, Debug)]
pub struct FramePlan {
    pub viewport: Viewport,
    pub position: GeodeticPosition,
    /// Distance of the eye from the planet's centre, in millimetres.
    pub eye_radius: i128,
}

impl FramePlan {
    /// The viewport has an area and the latitude is in range.
    pub open spec fn wf(&self) -> bool {
        &&& self.viewport.wf()
        &&& self.position.wf()
    }
}

/// The plan for a frame, or the reason why there is none: a viewport defect
/// comes first, a missing terrain height second.
pub open spec fn spec_plan_frame(
    position: GeodeticPosition,
    width: u32,
    height: u32,
    surface_height: Option<i64>,
) -> Result<FramePlan, RenderPreconditionFailure> {
    match Viewport::spec_defect(width, height) {
        Some(defect) => Err(defect),
        None => match surface_height {
            None => Err(RenderPreconditionFailure::HeightUnavailable),
            Some(h) => Ok(
                FramePlan {
                    viewport: Viewport { width, height },
                    position,
                    eye_radius: spec_radial_distance(position.altitude as int, h as int) as i128,
                },
            ),
        },
    }
}

/// Checks what a frame depends on. `position` is the position of the
/// observer and `surface_height` the terrain height sampled there, in
/// millimetres, or `None` where the sample failed. The frame is planned
/// exactly when the viewport has an area and the height is there; the plan of
/// a normalized position is well formed.
pub fn plan_frame(
    position: GeodeticPosition,
    width: u32,
    height: u32,
    surface_height: Option<i64>,
) -> (r: Result<FramePlan, RenderPreconditionFailure>)
    ensures
        r == spec_plan_frame(position, width, height, surface_height),
        r is Ok && position.wf() ==> r->Ok_0.wf(),
        r is Ok ==> r->Ok_0.eye_radius == spec_radial_distance(
            position.altitude as int,
            surface_height->0 as int,
        ),
{
    match Viewport::new(width, height) {
        Err(defect) => Err(defect),
        Ok(viewport) => match surface_height {
            None => Err(RenderPreconditionFailure::HeightUnavailable),
            Some(h) => Ok(FramePlan { viewport, position, eye_radius: position.eye_radius(h) }),
        },
    }
}

} // verus!
