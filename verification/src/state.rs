//! The render state: a model of the device and of the process-wide
//! resource cache.
//!
//! GPU objects appear in the library as plain handles drawn from one
//! counter; the unverified shell keeps the table from handle to real
//! device object and realizes each handle exactly once. The cache holds
//! the two resources every chunk shares — the lattice vertex buffer and
//! the chunk pipeline — so that they are built on first use and every
//! later user receives the same handle.

use vstd::prelude::*;

verus! {

/// Handle to a GPU buffer allocated through the render state.
#[derive(Clone, Copy, PartialEq, Eq, Structural, Debug)]
pub struct BufferHandle(pub u32);

/// Handle to a compiled render pipeline.
#[derive(Clone, Copy, PartialEq, Eq, Structural, Debug)]
pub struct PipelineHandle(pub u32);

/// Handle to a bind set: a group of resources attached to a pipeline slot.
#[derive(Clone, Copy, PartialEq, Eq, Structural, Debug)]
pub struct BindGroupHandle(pub u32);

/// The lazily populated, shared-ownership store for the resources all
/// chunks share. Read-only once populated: no invalidation path exists.
#[derive(Clone, Copy, PartialEq, Eq, Structural, Debug)]
pub struct ResourceCache {
    /// The shared lattice vertex buffer, once built.
    pub vertex_buffer: Option<BufferHandle>,
    /// The compiled chunk pipeline, once built.
    pub pipeline: Option<PipelineHandle>,
}

/// The model of the device and presentation configuration: the current
/// surface extent, the handle counter, and the shared resource cache.
#[derive(Clone, Copy, PartialEq, Eq, Structural, Debug)]
pub struct GFXState {
    /// Present-surface width in pixels.
    pub width: u32,
    /// Present-surface height in pixels.
    pub height: u32,
    /// The next unused handle id; every allocated handle is below it.
    pub next_handle: u32,
    /// The shared chunk resources, populated on first use.
    pub cache: ResourceCache,
}

impl GFXState {
    /// Whether `k` more handles can still be drawn from the counter.
    pub open spec fn can_alloc(self, k: int) -> bool {
        self.next_handle + k <= u32::MAX
    }

    /// The handle that acquiring the shared vertex buffer yields: the
    /// cached one, or the freshly allocated one on first use.
    pub open spec fn shared_vertex_buffer_spec(self) -> BufferHandle {
        match self.cache.vertex_buffer {
            Some(h) => h,
            None => BufferHandle(self.next_handle),
        }
    }

    /// The state after acquiring the shared vertex buffer: unchanged when
    /// cached, else with the fresh handle cached.
    pub open spec fn with_vertex_buffer(self) -> GFXState {
        match self.cache.vertex_buffer {
            Some(_) => self,
            None => GFXState {
                next_handle: (self.next_handle + 1) as u32,
                cache: ResourceCache {
                    vertex_buffer: Some(BufferHandle(self.next_handle)),
                    ..self.cache
                },
                ..self
            },
        }
    }

    /// The handle that acquiring the shared chunk pipeline yields.
    pub open spec fn shared_pipeline_spec(self) -> PipelineHandle {
        match self.cache.pipeline {
            Some(h) => h,
            None => PipelineHandle(self.next_handle),
        }
    }

    /// The state after acquiring the shared chunk pipeline.
    pub open spec fn with_pipeline(self) -> GFXState {
        match self.cache.pipeline {
            Some(_) => self,
            None => GFXState {
                next_handle: (self.next_handle + 1) as u32,
                cache: ResourceCache { pipeline: Some(PipelineHandle(self.next_handle)), ..self.cache },
                ..self
            },
        }
    }

    /// A fresh render state with an empty cache; nothing is allocated.
    pub fn new(width: u32, height: u32) -> (s: GFXState)
        ensures
            s == (GFXState {
                width,
                height,
                next_handle: 0,
                cache: ResourceCache { vertex_buffer: None, pipeline: None },
            }),
    {
        GFXState { width, height, next_handle: 0, cache: ResourceCache { vertex_buffer: None, pipeline: None } }
    }

    /// Records a new surface extent. A degenerate resize to zero width or
    /// height is silently ignored and touches nothing.
    pub fn resize(&mut self, new_size: (u32, u32))
        ensures
            new_size.0 == 0 || new_size.1 == 0 ==> *final(self) == *old(self),
            new_size.0 != 0 && new_size.1 != 0 ==> *final(self) == (GFXState {
                width: new_size.0,
                height: new_size.1,
                ..*old(self)
            }),
    {
        if new_size.0 == 0 || new_size.1 == 0 {
            return ;
        }
        self.width = new_size.0;
        self.height = new_size.1;
    }

    /// Allocates a GPU buffer: hands out the next fresh handle.
    pub fn alloc_buffer(&mut self) -> (h: BufferHandle)
        requires
            old(self).can_alloc(1),
        ensures
            h == BufferHandle(old(self).next_handle),
            *final(self) == (GFXState { next_handle: (old(self).next_handle + 1) as u32, ..*old(self) }),
    {
        let h = BufferHandle(self.next_handle);
        self.next_handle = self.next_handle + 1;
        h
    }

    /// Builds a render pipeline: hands out the next fresh handle.
    pub fn alloc_pipeline(&mut self) -> (h: PipelineHandle)
        requires
            old(self).can_alloc(1),
        ensures
            h == PipelineHandle(old(self).next_handle),
            *final(self) == (GFXState { next_handle: (old(self).next_handle + 1) as u32, ..*old(self) }),
    {
        let h = PipelineHandle(self.next_handle);
        self.next_handle = self.next_handle + 1;
        h
    }

    /// Creates a bind set: hands out the next fresh handle.
    pub fn alloc_bind_group(&mut self) -> (h: BindGroupHandle)
        requires
            old(self).can_alloc(1),
        ensures
            h == BindGroupHandle(old(self).next_handle),
            *final(self) == (GFXState { next_handle: (old(self).next_handle + 1) as u32, ..*old(self) }),
    {
        let h = BindGroupHandle(self.next_handle);
        self.next_handle = self.next_handle + 1;
        h
    }

    /// The shared lattice vertex buffer: built on first use, the cached
    /// handle ever after.
    pub fn shared_vertex_buffer(&mut self) -> (h: BufferHandle)
        requires
            old(self).can_alloc(1),
        ensures
            h == old(self).shared_vertex_buffer_spec(),
            *final(self) == old(self).with_vertex_buffer(),
            final(self).cache.vertex_buffer == Some(h),
    {
        match self.cache.vertex_buffer {
            Some(h) => h,
            None => {
                let h = self.alloc_buffer();
                self.cache.vertex_buffer = Some(h);
                h
            },
        }
    }

    /// The shared chunk pipeline: built on first use, the cached handle
    /// ever after.
    pub fn shared_pipeline(&mut self) -> (h: PipelineHandle)
        requires
            old(self).can_alloc(1),
        ensures
            h == old(self).shared_pipeline_spec(),
            *final(self) == old(self).with_pipeline(),
            final(self).cache.pipeline == Some(h),
    {
        match self.cache.pipeline {
            Some(h) => h,
            None => {
                let h = self.alloc_pipeline();
                self.cache.pipeline = Some(h);
                h
            },
        }
    }
}

/// Acquiring the shared vertex buffer is idempotent: however many holders
/// acquire it, it is constructed at most once, and every holder receives
/// the same handle.
pub proof fn lemma_vertex_buffer_shared_once(s: GFXState)
    ensures
        s.with_vertex_buffer().shared_vertex_buffer_spec() == s.shared_vertex_buffer_spec(),
        s.with_vertex_buffer().with_vertex_buffer() == s.with_vertex_buffer(),
        s.with_vertex_buffer().cache.vertex_buffer == Some(s.shared_vertex_buffer_spec()),
{
}

/// Acquiring the shared chunk pipeline is idempotent in the same way.
pub proof fn lemma_pipeline_shared_once(s: GFXState)
    ensures
        s.with_pipeline().shared_pipeline_spec() == s.shared_pipeline_spec(),
        s.with_pipeline().with_pipeline() == s.with_pipeline(),
        s.with_pipeline().cache.pipeline == Some(s.shared_pipeline_spec()),
{
}

/// Acquiring one shared resource leaves the other untouched, in either
/// order: the cache is populated independently per resource.
pub proof fn lemma_cache_resources_independent(s: GFXState)
    ensures
        s.with_vertex_buffer().with_pipeline().cache.vertex_buffer == Some(
            s.shared_vertex_buffer_spec(),
        ),
        s.with_pipeline().with_vertex_buffer().cache.pipeline == Some(s.shared_pipeline_spec()),
{
}

} // verus!
