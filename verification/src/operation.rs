//! Draw operations and frame composition.
//!
//! A draw operation is one drawable entity's contribution to the current
//! frame: the closed set of producers is the camera (which only binds its
//! bind set), the background triangle, and the chunk mesh. The composer
//! records every collected operation, in submission order, into one flat
//! command list for a single render pass; the unverified shell replays
//! that list against the real pass and presents.

use vstd::prelude::*;

use crate::state::BindGroupHandle;
use crate::state::BufferHandle;
use crate::state::PipelineHandle;

verus! {

/// One GPU command of a render pass, as the library records it.
#[derive(Clone, Copy, PartialEq, Eq, Structural, Debug)]
pub enum RenderCommand {
    /// Select the pipeline for the following draws.
    SetPipeline(PipelineHandle),
    /// Attach a bind set at a pipeline slot; pass state is cumulative, so
    /// the binding stays in force for the rest of the pass.
    SetBindGroup(u32, BindGroupHandle),
    /// Attach a vertex buffer at a slot.
    SetVertexBuffer(u32, BufferHandle),
    /// Attach the index buffer.
    SetIndexBuffer(BufferHandle),
    /// Draw this many indices, from offset zero.
    DrawIndexed(u32),
    /// Draw this many vertices without an index buffer.
    Draw(u32),
}

/// Whether a command issues geometry (as opposed to only binding state).
pub open spec fn is_draw_command(c: RenderCommand) -> bool {
    c is DrawIndexed || c is Draw
}

/// One frame's contribution of one drawable entity. An operation holds
/// only the shared handles its draw call needs; it owns no exclusive
/// resource and never a reference to the pass itself.
#[derive(Clone, Copy, PartialEq, Eq, Structural, Debug)]
pub enum GFXOperation {
    /// The camera's contribution: bind its bind set at slot 0. No draw
    /// call; it must precede the geometry that depends on it.
    CameraBind { binding: BindGroupHandle },
    /// The decorative background: bind its own pipeline, draw one
    /// triangle.
    BackgroundTriangle { pipeline: PipelineHandle },
    /// A chunk's mesh: bind the shared pipeline, the shared vertex
    /// buffer and the chunk's index buffer, then one indexed draw.
    ChunkMesh {
        pipeline: PipelineHandle,
        vertex_buffer: BufferHandle,
        index_buffer: BufferHandle,
        index_count: u32,
    },
}

/// The commands one operation records into the pass.
pub open spec fn record_spec(op: GFXOperation) -> Seq<RenderCommand> {
    match op {
        GFXOperation::CameraBind { binding } => seq![RenderCommand::SetBindGroup(0, binding)],
        GFXOperation::BackgroundTriangle { pipeline } => seq![
            RenderCommand::SetPipeline(pipeline),
            RenderCommand::Draw(3),
        ],
        GFXOperation::ChunkMesh { pipeline, vertex_buffer, index_buffer, index_count } => seq![
            RenderCommand::SetPipeline(pipeline),
            RenderCommand::SetVertexBuffer(0, vertex_buffer),
            RenderCommand::SetIndexBuffer(index_buffer),
            RenderCommand::DrawIndexed(index_count),
        ],
    }
}

/// The commands recorded by the first `n` operations, in submission
/// order.
pub open spec fn commands_prefix(ops: Seq<GFXOperation>, n: int) -> Seq<RenderCommand>
    decreases n,
{
    if n <= 0 {
        Seq::empty()
    } else {
        commands_prefix(ops, n - 1) + record_spec(ops[n - 1])
    }
}

/// The commands recorded by the operations from position `n` on.
pub open spec fn commands_from(ops: Seq<GFXOperation>, n: int) -> Seq<RenderCommand>
    decreases ops.len() - n,
{
    if n < 0 || n >= ops.len() {
        Seq::empty()
    } else {
        record_spec(ops[n]) + commands_from(ops, n + 1)
    }
}

/// The whole frame's command list: every operation's commands,
/// concatenated in submission order.
pub open spec fn commands_of(ops: Seq<GFXOperation>) -> Seq<RenderCommand> {
    commands_prefix(ops, ops.len() as int)
}

/// Where operation `i`'s block of commands starts in the frame's list.
pub open spec fn command_start(ops: Seq<GFXOperation>, i: int) -> int {
    commands_prefix(ops, i).len() as int
}

impl GFXOperation {
    /// Records this operation's commands into the open pass.
    pub fn record(&self, pass: &mut Vec<RenderCommand>)
        ensures
            final(pass)@ == old(pass)@ + record_spec(*self),
    {
        match self {
            GFXOperation::CameraBind { binding } => {
                pass.push(RenderCommand::SetBindGroup(0, *binding));
            },
            GFXOperation::BackgroundTriangle { pipeline } => {
                pass.push(RenderCommand::SetPipeline(*pipeline));
                pass.push(RenderCommand::Draw(3));
            },
            GFXOperation::ChunkMesh { pipeline, vertex_buffer, index_buffer, index_count } => {
                pass.push(RenderCommand::SetPipeline(*pipeline));
                pass.push(RenderCommand::SetVertexBuffer(0, *vertex_buffer));
                pass.push(RenderCommand::SetIndexBuffer(*index_buffer));
                pass.push(RenderCommand::DrawIndexed(*index_count));
            },
        }
        proof {
            assert(pass@ =~= old(pass)@ + record_spec(*self));
        }
    }
}

/// Composes one frame: records every collected operation into a single
/// pass's command list, strictly in the order the operations were
/// produced. No operation opens a pass of its own.
pub fn render(ops: &Vec<GFXOperation>) -> (commands: Vec<RenderCommand>)
    ensures
        commands@ == commands_of(ops@),
{
    let mut commands: Vec<RenderCommand> = Vec::new();
    let mut i: usize = 0;
    while i < ops.len()
        invariant
            0 <= i <= ops@.len(),
            commands@ == commands_prefix(ops@, i as int),
        decreases ops@.len() - i,
    {
        ops[i].record(&mut commands);
        i = i + 1;
    }
    commands
}

/// The frame's command list splits at any operation boundary into the
/// commands of the operations before it and of those from it on.
pub proof fn lemma_commands_decompose(ops: Seq<GFXOperation>, n: int)
    requires
        0 <= n <= ops.len(),
    ensures
        commands_of(ops) == commands_prefix(ops, n) + commands_from(ops, n),
    decreases ops.len() - n,
{
    if n == ops.len() {
        assert(commands_of(ops) =~= commands_prefix(ops, n) + commands_from(ops, n));
    } else {
        lemma_commands_decompose(ops, n + 1);
        assert(commands_prefix(ops, n) + commands_from(ops, n) =~= commands_prefix(ops, n + 1)
            + commands_from(ops, n + 1));
    }
}

/// Every operation's commands stand as one contiguous block of the
/// frame's command list, and the blocks appear in submission order.
pub proof fn lemma_commands_in_order(ops: Seq<GFXOperation>, i: int)
    requires
        0 <= i < ops.len(),
    ensures
        command_start(ops, i) + record_spec(ops[i]).len() == command_start(ops, i + 1),
        command_start(ops, i + 1) <= commands_of(ops).len(),
        commands_of(ops).subrange(command_start(ops, i), command_start(ops, i + 1))
            == record_spec(ops[i]),
{
    lemma_commands_decompose(ops, i);
    lemma_commands_decompose(ops, i + 1);
    let s = command_start(ops, i);
    let t = command_start(ops, i + 1);
    assert(commands_of(ops).subrange(s, t) =~= record_spec(ops[i])) by {
        assert forall|k: int| 0 <= k < t - s implies commands_of(ops)[s + k] == record_spec(
            ops[i],
        )[k] by {
            assert(commands_of(ops)[s + k] == commands_from(ops, i)[k]);
        }
    }
}

/// When the camera's operation is submitted first, the frame's very first
/// command binds the camera's bind set, before any draw call of any
/// operation.
pub proof fn lemma_camera_binds_first(ops: Seq<GFXOperation>)
    requires
        ops.len() > 0,
        ops[0] is CameraBind,
    ensures
        commands_of(ops).len() > 0,
        commands_of(ops)[0] == RenderCommand::SetBindGroup(0, ops[0]->binding),
        forall|j: int|
            0 <= j < commands_of(ops).len() && is_draw_command(#[trigger] commands_of(ops)[j])
                ==> 0 < j,
{
    lemma_commands_decompose(ops, 0);
    assert(commands_of(ops)[0] == commands_from(ops, 0)[0]);
}

} // verus!
