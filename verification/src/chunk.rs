//! The chunk: a fixed-extent 3D grid of voxels meshed as one unit.
//!
//! A chunk owns its dense cell array, a dirty flag, and its GPU index
//! buffer (as a handle plus the index data mirrored for upload). The
//! shared vertex buffer and pipeline are not owned here: every chunk
//! borrows them from the render state's cache.

use vstd::prelude::*;

use crate::grid::corner_in_lattice;
use crate::grid::vertex_index;
use crate::mesh::build_indices;
use crate::mesh::lemma_mesh_len_bound;
use crate::mesh::linear_index;
use crate::mesh::mesh_of;
use crate::mesh::voxel_in_chunk;
use crate::operation::GFXOperation;
use crate::state::BufferHandle;
use crate::state::GFXState;
use crate::voxel::Voxel;
use crate::voxel::default_voxel;
use crate::CHUNK_DEPTH;
use crate::CHUNK_HEIGHT;
use crate::CHUNK_WIDTH;
use crate::INDEX_CAPACITY;
use crate::VERTEX_COUNT;
use crate::VOXEL_COUNT;

verus! {

/// A fixed 16 x 16 x 16 block of voxels with its meshing state.
pub struct Chunk {
    /// The dense cell array, linearized by [`linear_index`].
    pub data: Vec<Voxel>,
    /// Whether the mesh must be rebuilt before the next draw: true from
    /// construction until the first build, and again whenever a cell is
    /// handed out for mutation.
    pub needs_rebuilding: bool,
    /// The chunk's own GPU index buffer, allocated once at construction
    /// with capacity for the worst case ([`INDEX_CAPACITY`] slots).
    pub index_buffer: BufferHandle,
    /// The index data currently valid in the index buffer.
    pub index_data: Vec<u32>,
    /// The number of currently valid index slots; never exceeds the
    /// buffer capacity.
    pub index_count: u32,
}

impl Chunk {
    /// Well-formedness: the cell array covers the whole extent, the index
    /// count mirrors the valid index data, the data fits the buffer
    /// capacity, and a clean chunk's index data is exactly the mesh of
    /// its cells.
    pub open spec fn wf(self) -> bool {
        &&& self.data@.len() == VOXEL_COUNT
        &&& self.index_count == self.index_data@.len()
        &&& self.index_data@.len() <= INDEX_CAPACITY
        &&& !self.needs_rebuilding ==> self.index_data@ == mesh_of(self.data@)
    }

    /// A fresh chunk: every cell holds the default voxel (occupied, red),
    /// the mesh is unbuilt and marked dirty, and the index buffer handle
    /// is newly allocated from the render state.
    pub fn new(gfx: &mut GFXState) -> (c: Chunk)
        requires
            old(gfx).can_alloc(1),
        ensures
            c.wf(),
            c.needs_rebuilding,
            forall|i: int| 0 <= i < VOXEL_COUNT ==> (#[trigger] c.data@[i]) == default_voxel(),
            c.index_data@ == Seq::<u32>::empty(),
            c.index_count == 0,
            c.index_buffer == BufferHandle(old(gfx).next_handle),
            *final(gfx) == (GFXState {
                next_handle: (old(gfx).next_handle + 1) as u32,
                ..*old(gfx)
            }),
    {
        let mut data: Vec<Voxel> = Vec::new();
        let mut i: u32 = 0;
        while i < VOXEL_COUNT
            invariant
                0 <= i <= VOXEL_COUNT,
                data@.len() == i,
                forall|j: int| 0 <= j < i ==> (#[trigger] data@[j]) == default_voxel(),
            decreases VOXEL_COUNT - i,
        {
            data.push(Voxel::default());
            i = i + 1;
        }
        Chunk {
            data,
            needs_rebuilding: true,
            index_buffer: gfx.alloc_buffer(),
            index_data: Vec::new(),
            index_count: 0,
        }
    }

    /// The voxel at `(x, y, z)`, or `None` when any coordinate is out of
    /// the chunk extent; never panics.
    pub fn voxel(&self, x: u32, y: u32, z: u32) -> (r: Option<&Voxel>)
        requires
            self.wf(),
        ensures
            match r {
                Some(v) => voxel_in_chunk(x as int, y as int, z as int) && *v == self.data@[
                    linear_index(x as int, y as int, z as int)],
                None => !voxel_in_chunk(x as int, y as int, z as int),
            },
    {
        if x >= CHUNK_WIDTH || y >= CHUNK_HEIGHT || z >= CHUNK_DEPTH {
            return None;
        }
        let idx: usize = (x + y * 16 + z * 256) as usize;
        Some(&self.data[idx])
    }

    /// Mutable access to the voxel at `(x, y, z)`, or `None` when any
    /// coordinate is out of the chunk extent; never panics. Handing out
    /// mutable access marks the chunk dirty, so the dirty flag is set
    /// whenever voxel contents may have changed since the last build.
    pub fn voxel_mut(&mut self, x: u32, y: u32, z: u32) -> (r: Option<&mut Voxel>)
        requires
            old(self).wf(),
        ensures
            final(self).wf(),
            !voxel_in_chunk(x as int, y as int, z as int) ==> r is None && *final(self)
                == *old(self),
            voxel_in_chunk(x as int, y as int, z as int) ==> {
                &&& r is Some
                &&& *r.unwrap() == old(self).data@[linear_index(x as int, y as int, z as int)]
                &&& final(self).data@ == old(self).data@.update(
                    linear_index(x as int, y as int, z as int),
                    *final(r.unwrap()),
                )
                &&& final(self).needs_rebuilding
                &&& final(self).index_buffer == old(self).index_buffer
                &&& final(self).index_data == old(self).index_data
                &&& final(self).index_count == old(self).index_count
            },
    {
        if x >= CHUNK_WIDTH || y >= CHUNK_HEIGHT || z >= CHUNK_DEPTH {
            return None;
        }
        self.needs_rebuilding = true;
        let idx: usize = (x + y * 16 + z * 256) as usize;
        Some(&mut self.data[idx])
    }

    /// The total number of vertices in the shared lattice grid.
    pub fn vertex_count() -> (n: u32)
        ensures
            n == VERTEX_COUNT,
    {
        VERTEX_COUNT
    }

    /// The shared-grid index of the lattice corner `(x, y, z)`:
    /// `x + y * (W + 1) + z * (W + 1) * (H + 1)` (coefficients 17 and 289
    /// for the fixed extent).
    pub fn vertex_at(x: u32, y: u32, z: u32) -> (r: u32)
        requires
            corner_in_lattice(x as int, y as int, z as int),
        ensures
            r == vertex_index(x as int, y as int, z as int),
    {
        x + y * 17 + z * 289
    }

    /// Rebuilds the chunk's index data from its cells: afterwards the
    /// index data is exactly the face-culled mesh of the grid, written
    /// from offset zero. Leaves the cells and the dirty flag untouched.
    pub fn build_mesh(&mut self)
        requires
            old(self).wf(),
        ensures
            final(self).wf(),
            final(self).data == old(self).data,
            final(self).needs_rebuilding == old(self).needs_rebuilding,
            final(self).index_buffer == old(self).index_buffer,
            final(self).index_data@ == mesh_of(old(self).data@),
            final(self).index_count == mesh_of(old(self).data@).len(),
    {
        let indices = build_indices(&self.data);
        proof {
            lemma_mesh_len_bound(self.data@);
        }
        self.index_count = indices.len() as u32;
        self.index_data = indices;
    }

    /// The chunk's contribution to the frame. Acquires the shared vertex
    /// buffer and pipeline from the cache (building each on first use),
    /// rebuilds the mesh only when the chunk is dirty — repeated draws of
    /// an unchanged chunk reuse the index data byte for byte — and hands
    /// back the draw operation referencing only shared handles.
    pub fn draw(&mut self, gfx: &mut GFXState) -> (op: GFXOperation)
        requires
            old(self).wf(),
            old(gfx).can_alloc(2),
        ensures
            final(self).wf(),
            final(self).data == old(self).data,
            final(self).index_buffer == old(self).index_buffer,
            !final(self).needs_rebuilding,
            final(self).index_data@ == mesh_of(old(self).data@),
            !old(self).needs_rebuilding ==> *final(self) == *old(self),
            *final(gfx) == old(gfx).with_vertex_buffer().with_pipeline(),
            op == (GFXOperation::ChunkMesh {
                pipeline: old(gfx).with_vertex_buffer().shared_pipeline_spec(),
                vertex_buffer: old(gfx).shared_vertex_buffer_spec(),
                index_buffer: old(self).index_buffer,
                index_count: mesh_of(old(self).data@).len() as u32,
            }),
    {
        let vertex_buffer = gfx.shared_vertex_buffer();
        let pipeline = gfx.shared_pipeline();
        if self.needs_rebuilding {
            self.build_mesh();
            self.needs_rebuilding = false;
        }
        proof {
            lemma_mesh_len_bound(self.data@);
        }
        GFXOperation::ChunkMesh {
            pipeline,
            vertex_buffer,
            index_buffer: self.index_buffer,
            index_count: self.index_count,
        }
    }
}

} // verus!
