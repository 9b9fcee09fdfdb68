//! The world: the decorative background triangle's resources and frame
//! contribution.

use vstd::prelude::*;

use crate::operation::GFXOperation;
use crate::state::GFXState;
use crate::state::PipelineHandle;

verus! {

/// The world-level drawable: owns the background triangle's pipeline.
pub struct World {
    /// The background triangle's own pipeline; built once at startup,
    /// not shared with the chunks.
    pub pipeline: PipelineHandle,
}

impl World {
    /// Builds the background triangle's pipeline.
    pub fn new(gfx: &mut GFXState) -> (w: World)
        requires
            old(gfx).can_alloc(1),
        ensures
            w.pipeline == PipelineHandle(old(gfx).next_handle),
            *final(gfx) == (GFXState {
                next_handle: (old(gfx).next_handle + 1) as u32,
                ..*old(gfx)
            }),
    {
        let pipeline = gfx.alloc_pipeline();
        World { pipeline }
    }

    /// The world's contribution to the frame: bind the background
    /// pipeline and draw its single triangle.
    pub fn draw(&self) -> (op: GFXOperation)
        ensures
            op == (GFXOperation::BackgroundTriangle { pipeline: self.pipeline }),
    {
        GFXOperation::BackgroundTriangle { pipeline: self.pipeline }
    }
}

} // verus!
