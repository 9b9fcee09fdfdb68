//! Runtime checks of frame composition and resource sharing.

use voxmesh::camera::Camera;
use voxmesh::chunk::Chunk;
use voxmesh::operation::{render, GFXOperation, RenderCommand};
use voxmesh::state::GFXState;
use voxmesh::world::World;

fn is_draw(c: &RenderCommand) -> bool {
    matches!(c, RenderCommand::Draw(_) | RenderCommand::DrawIndexed(_))
}

#[test]
fn composition_binds_camera_first_and_keeps_order() {
    let mut gfx = GFXState::new(1024, 1024);
    let camera = Camera::new(&mut gfx);
    let world = World::new(&mut gfx);
    let mut chunk = Chunk::new(&mut gfx);

    let ops = vec![camera.draw(), world.draw(), chunk.draw(&mut gfx)];
    let commands = render(&ops);

    // The camera's bind is the very first command, before any draw call.
    assert_eq!(commands[0], RenderCommand::SetBindGroup(0, camera.binding));
    assert!(!is_draw(&commands[0]));

    // The three operations' commands appear as contiguous blocks in
    // submission order: camera bind, background triangle, chunk mesh.
    assert_eq!(commands.len(), 1 + 2 + 4);
    assert_eq!(commands[1], RenderCommand::SetPipeline(world.pipeline));
    assert_eq!(commands[2], RenderCommand::Draw(3));
    match (&commands[3], &commands[4], &commands[5], &commands[6]) {
        (
            RenderCommand::SetPipeline(_),
            RenderCommand::SetVertexBuffer(0, _),
            RenderCommand::SetIndexBuffer(ib),
            RenderCommand::DrawIndexed(n),
        ) => {
            assert_eq!(*ib, chunk.index_buffer);
            assert_eq!(*n, chunk.index_count);
        }
        other => panic!("unexpected chunk command block: {other:?}"),
    }

    // Draw calls appear strictly after the camera bind, in submission
    // order: the background's draw precedes the chunk's.
    let draw_positions: Vec<usize> = commands
        .iter()
        .enumerate()
        .filter(|(_, c)| is_draw(c))
        .map(|(i, _)| i)
        .collect();
    assert_eq!(draw_positions, vec![2, 6]);
}

#[test]
fn camera_records_only_its_bind() {
    let mut gfx = GFXState::new(8, 8);
    let camera = Camera::new(&mut gfx);
    let commands = render(&vec![camera.draw()]);
    assert_eq!(commands, vec![RenderCommand::SetBindGroup(0, camera.binding)]);
}

#[test]
fn two_chunks_share_vertex_buffer_and_pipeline() {
    let mut gfx = GFXState::new(256, 256);
    let mut a = Chunk::new(&mut gfx);
    let mut b = Chunk::new(&mut gfx);
    assert_ne!(a.index_buffer, b.index_buffer);

    // Neither chunk forced construction yet: the cache fills on the
    // first draw and is reused, not rebuilt, by the second.
    assert_eq!(gfx.cache.vertex_buffer, None);
    let op_a = a.draw(&mut gfx);
    let shared = gfx.cache.vertex_buffer.expect("cache populated");
    let handle_watermark = gfx.next_handle;
    let op_b = b.draw(&mut gfx);
    assert_eq!(gfx.cache.vertex_buffer, Some(shared));
    // No further allocation happened: construction ran exactly once.
    assert_eq!(gfx.next_handle, handle_watermark);

    match (op_a, op_b) {
        (
            GFXOperation::ChunkMesh { vertex_buffer: va, pipeline: pa, index_buffer: ia, .. },
            GFXOperation::ChunkMesh { vertex_buffer: vb, pipeline: pb, index_buffer: ib, .. },
        ) => {
            assert_eq!(va, vb);
            assert_eq!(va, shared);
            assert_eq!(pa, pb);
            assert_ne!(ia, ib);
        }
        other => panic!("unexpected operations: {other:?}"),
    }
}

#[test]
fn resize_ignores_degenerate_extents() {
    let mut gfx = GFXState::new(800, 600);
    gfx.resize((0, 480));
    assert_eq!((gfx.width, gfx.height), (800, 600));
    gfx.resize((640, 0));
    assert_eq!((gfx.width, gfx.height), (800, 600));
    gfx.resize((640, 480));
    assert_eq!((gfx.width, gfx.height), (640, 480));
}
