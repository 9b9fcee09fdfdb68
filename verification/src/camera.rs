//! The camera's resource ownership and frame contribution.
//!
//! The camera owns its uniform buffer and its bind set for its whole
//! lifetime; only the buffer's contents — the projection x view matrix —
//! are refreshed per frame. That matrix is floating-point work and is
//! computed and written by the unverified shell; the library models what
//! the camera contributes to the pass: binding its bind set at slot 0,
//! before any geometry that depends on it.

use vstd::prelude::*;

use crate::operation::GFXOperation;
use crate::state::BindGroupHandle;
use crate::state::BufferHandle;
use crate::state::GFXState;

verus! {

/// A camera: the owner of one uniform buffer and the bind set exposing
/// it to the pipelines at slot 0.
pub struct Camera {
    /// The camera's GPU-resident uniform buffer, holding the current
    /// projection x view matrix; updated in place, never reallocated.
    pub buffer: BufferHandle,
    /// The bind set that attaches the uniform buffer at slot 0.
    pub binding: BindGroupHandle,
}

impl Camera {
    /// Creates the camera's uniform buffer and its bind set, both owned
    /// for the camera's whole lifetime.
    pub fn new(gfx: &mut GFXState) -> (c: Camera)
        requires
            old(gfx).can_alloc(2),
        ensures
            c.buffer == BufferHandle(old(gfx).next_handle),
            c.binding == BindGroupHandle((old(gfx).next_handle + 1) as u32),
            *final(gfx) == (GFXState {
                next_handle: (old(gfx).next_handle + 2) as u32,
                ..*old(gfx)
            }),
    {
        let buffer = gfx.alloc_buffer();
        let binding = gfx.alloc_bind_group();
        Camera { buffer, binding }
    }

    /// The camera's contribution to the frame: bind its bind set at slot
    /// 0. It issues no draw call, so it must be submitted before the
    /// geometry operations that rely on the binding.
    pub fn draw(&self) -> (op: GFXOperation)
        ensures
            op == (GFXOperation::CameraBind { binding: self.binding }),
    {
        GFXOperation::CameraBind { binding: self.binding }
    }
}

} // verus!
