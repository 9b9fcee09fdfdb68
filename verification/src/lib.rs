//! A verified core for a real-time voxel renderer.
//!
//! The crate converts a dense per-cell occupancy grid into a GPU-drawable
//! triangle mesh (face-culled meshing over a fixed-size chunk) and composes
//! independently produced draw contributions into one ordered command list
//! per frame. GPU objects (buffers, pipelines, bind sets) appear here as
//! plain handles managed by an explicit render state; the unverified shell
//! around the crate interprets the recorded commands against a real device.

use vstd::prelude::*;

pub mod camera;
pub mod chunk;
pub mod grid;
pub mod mesh;
pub mod operation;
pub mod state;
pub mod voxel;
pub mod world;

verus! {

/// Number of voxels along the X axis of a chunk.
pub const CHUNK_WIDTH: u32 = 16;

/// Number of voxels along the Y axis of a chunk.
pub const CHUNK_HEIGHT: u32 = 16;

/// Number of voxels along the Z axis of a chunk.
pub const CHUNK_DEPTH: u32 = 16;

/// Total number of voxels in a chunk: `W * H * D`. Written as a literal so
/// that the solver can treat every use as linear arithmetic;
/// [`lemma_dimension_constants`] ties it back to the per-axis extents.
pub const VOXEL_COUNT: u32 = 4096;

/// Total number of lattice corner vertices of a chunk, one more than the
/// voxel extent per axis: `(W + 1) * (H + 1) * (D + 1)`.
pub const VERTEX_COUNT: u32 = 4913;

/// Capacity of a chunk's index buffer in index slots, sized for the worst
/// case of every face of every lattice cell being visible: two triangles of
/// three indices for each of the six faces, `(W+1) * (H+1) * (D+1) * 3 * 2 * 6`.
pub const INDEX_CAPACITY: u32 = 176868;

/// The literal counts above are exactly the products of the per-axis chunk
/// extents that their documentation states.
pub proof fn lemma_dimension_constants()
    ensures
        VOXEL_COUNT == CHUNK_WIDTH * CHUNK_HEIGHT * CHUNK_DEPTH,
        VERTEX_COUNT == (CHUNK_WIDTH + 1) * (CHUNK_HEIGHT + 1) * (CHUNK_DEPTH + 1),
        INDEX_CAPACITY == VERTEX_COUNT * 3 * 2 * 6,
{
    assert(VOXEL_COUNT == CHUNK_WIDTH * CHUNK_HEIGHT * CHUNK_DEPTH) by (nonlinear_arith);
    assert(VERTEX_COUNT == (CHUNK_WIDTH + 1) * (CHUNK_HEIGHT + 1) * (CHUNK_DEPTH + 1))
        by (nonlinear_arith);
    assert(INDEX_CAPACITY == VERTEX_COUNT * 3 * 2 * 6) by (nonlinear_arith);
}

} // verus!
