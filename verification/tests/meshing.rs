//! Runtime checks of the mesher, the vertex grid, and the chunk API.

use voxmesh::chunk::Chunk;
use voxmesh::grid::build_vertex_grid;
use voxmesh::mesh::index_bytes;
use voxmesh::state::GFXState;
use voxmesh::voxel::{Color, Voxel};
use voxmesh::{INDEX_CAPACITY, VERTEX_COUNT, VOXEL_COUNT};

/// A chunk whose every cell is empty.
fn empty_chunk(gfx: &mut GFXState) -> Chunk {
    let mut chunk = Chunk::new(gfx);
    for z in 0..16 {
        for y in 0..16 {
            for x in 0..16 {
                chunk.voxel_mut(x, y, z).unwrap().empty = true;
            }
        }
    }
    chunk
}

fn occupy(chunk: &mut Chunk, x: u32, y: u32, z: u32) {
    let v = chunk.voxel_mut(x, y, z).unwrap();
    v.empty = false;
}

#[test]
fn constants_match_extent() {
    assert_eq!(VOXEL_COUNT, 16 * 16 * 16);
    assert_eq!(VERTEX_COUNT, 17 * 17 * 17);
    assert_eq!(INDEX_CAPACITY, 17 * 17 * 17 * 3 * 2 * 6);
    assert_eq!(Chunk::vertex_count(), VERTEX_COUNT);
}

#[test]
fn default_voxel_is_occupied_red() {
    let v = Voxel::default();
    assert!(!v.empty);
    assert_eq!(v.color, Color { r: 255, g: 0, b: 0 });
}

#[test]
fn voxel_accessors_bound_check() {
    let mut gfx = GFXState::new(64, 64);
    let mut chunk = Chunk::new(&mut gfx);
    assert!(chunk.voxel(0, 0, 0).is_some());
    assert!(chunk.voxel(15, 15, 15).is_some());
    assert!(chunk.voxel(16, 0, 0).is_none());
    assert!(chunk.voxel(0, 16, 0).is_none());
    assert!(chunk.voxel(0, 0, 16).is_none());
    assert!(chunk.voxel_mut(16, 0, 0).is_none());
    assert!(chunk.voxel_mut(0, 0, 0).is_some());
}

#[test]
fn mutation_marks_dirty() {
    let mut gfx = GFXState::new(64, 64);
    let mut chunk = Chunk::new(&mut gfx);
    chunk.draw(&mut gfx);
    assert!(!chunk.needs_rebuilding);
    chunk.voxel_mut(1, 2, 3).unwrap().empty = true;
    assert!(chunk.needs_rebuilding);
}

#[test]
fn vertex_index_formula() {
    assert_eq!(Chunk::vertex_at(0, 0, 0), 0);
    assert_eq!(Chunk::vertex_at(2, 3, 1), 2 + 3 * 17 + 289);
    assert_eq!(Chunk::vertex_at(16, 16, 16), VERTEX_COUNT - 1);
}

#[test]
fn vertex_index_injective_over_lattice() {
    let mut seen = vec![false; VERTEX_COUNT as usize];
    for z in 0..17 {
        for y in 0..17 {
            for x in 0..17 {
                let i = Chunk::vertex_at(x, y, z) as usize;
                assert!(!seen[i], "duplicate vertex index {i}");
                seen[i] = true;
            }
        }
    }
    assert!(seen.iter().all(|&s| s));
}

#[test]
fn vertex_grid_matches_addressing() {
    let grid = build_vertex_grid();
    assert_eq!(grid.len(), VERTEX_COUNT as usize);
    // Lattice corner (2, 3, 1) sits at world position (1.5, 2.5, 0.5):
    // positions are stored in half-units.
    let v = grid[Chunk::vertex_at(2, 3, 1) as usize];
    assert_eq!((v.x, v.y, v.z), (3, 5, 1));
    assert_eq!(
        (v.x as f32 * 0.5, v.y as f32 * 0.5, v.z as f32 * 0.5),
        (1.5, 2.5, 0.5)
    );
    // The first corner of the lattice sits half a unit below the origin
    // on every axis.
    let o = grid[0];
    assert_eq!((o.x, o.y, o.z), (-1, -1, -1));
}

#[test]
fn mesher_is_idempotent() {
    let mut gfx = GFXState::new(64, 64);
    let mut chunk = empty_chunk(&mut gfx);
    occupy(&mut chunk, 4, 5, 6);
    occupy(&mut chunk, 4, 6, 6);
    occupy(&mut chunk, 0, 0, 0);
    chunk.build_mesh();
    let first = chunk.index_data.clone();
    let first_bytes = index_bytes(&chunk.index_data);
    chunk.build_mesh();
    assert_eq!(chunk.index_data, first);
    assert_eq!(index_bytes(&chunk.index_data), first_bytes);
}

#[test]
fn draw_rebuilds_at_most_once() {
    let mut gfx = GFXState::new(64, 64);
    let mut chunk = empty_chunk(&mut gfx);
    occupy(&mut chunk, 7, 7, 7);
    let op1 = chunk.draw(&mut gfx);
    let snapshot = chunk.index_data.clone();
    let count = chunk.index_count;
    let op2 = chunk.draw(&mut gfx);
    assert_eq!(chunk.index_data, snapshot);
    assert_eq!(chunk.index_count, count);
    assert_eq!(op1, op2);
}

#[test]
fn single_voxel_emits_six_faces() {
    let mut gfx = GFXState::new(64, 64);
    let mut chunk = empty_chunk(&mut gfx);
    occupy(&mut chunk, 5, 7, 3);
    chunk.build_mesh();
    assert_eq!(chunk.index_data.len(), 36);
    assert_eq!(chunk.index_count, 36);
}

#[test]
fn single_corner_voxel_emits_six_faces() {
    // A voxel in the chunk corner: every face is a boundary face and all
    // six are still emitted.
    let mut gfx = GFXState::new(64, 64);
    let mut chunk = empty_chunk(&mut gfx);
    occupy(&mut chunk, 0, 0, 0);
    chunk.build_mesh();
    assert_eq!(chunk.index_data.len(), 36);
}

#[test]
fn adjacent_pairs_share_interior_face() {
    // Two adjacent occupied voxels along each axis: ten faces, not twelve.
    for (dx, dy, dz) in [(1, 0, 0), (0, 1, 0), (0, 0, 1)] {
        let mut gfx = GFXState::new(64, 64);
        let mut chunk = empty_chunk(&mut gfx);
        occupy(&mut chunk, 8, 8, 8);
        occupy(&mut chunk, 8 + dx, 8 + dy, 8 + dz);
        chunk.build_mesh();
        assert_eq!(chunk.index_data.len(), 60, "axis ({dx},{dy},{dz})");
    }
}

/// The six indices of one face, as build_mesh emits them; used to check
/// boundary faces are present.
fn face_window(corners: [(u32, u32, u32); 4]) -> Vec<u32> {
    let [a, b, c, d] = corners.map(|(x, y, z)| Chunk::vertex_at(x, y, z));
    vec![a, b, c, a, c, d]
}

fn contains_window(haystack: &[u32], needle: &[u32]) -> bool {
    haystack.windows(needle.len()).any(|w| w == needle)
}

#[test]
fn boundary_faces_are_emitted() {
    // A voxel on the WEST edge (x == 0) still emits its west face.
    let mut gfx = GFXState::new(64, 64);
    let mut chunk = empty_chunk(&mut gfx);
    occupy(&mut chunk, 0, 4, 9);
    chunk.build_mesh();
    let west = face_window([(0, 4, 9), (0, 4, 10), (0, 5, 10), (0, 5, 9)]);
    assert!(contains_window(&chunk.index_data, &west));

    // A voxel on the TOP edge (y == 15) still emits its top face.
    let mut chunk = empty_chunk(&mut gfx);
    occupy(&mut chunk, 3, 15, 2);
    chunk.build_mesh();
    let top = face_window([(3, 16, 2), (3, 16, 3), (4, 16, 3), (4, 16, 2)]);
    assert!(contains_window(&chunk.index_data, &top));
}

#[test]
fn interior_face_of_pair_not_emitted() {
    // For the pair (8,8,8)-(9,8,8), the shared plane x == 9 face of the
    // left voxel must not appear.
    let mut gfx = GFXState::new(64, 64);
    let mut chunk = empty_chunk(&mut gfx);
    occupy(&mut chunk, 8, 8, 8);
    occupy(&mut chunk, 9, 8, 8);
    chunk.build_mesh();
    // EAST face of (8,8,8) as it would be emitted were it visible.
    let east = face_window([(9, 8, 8), (9, 9, 8), (9, 9, 9), (9, 8, 9)]);
    assert!(!contains_window(&chunk.index_data, &east));
    // WEST face of (9,8,8) likewise.
    let west = face_window([(9, 8, 8), (9, 8, 9), (9, 9, 9), (9, 9, 8)]);
    assert!(!contains_window(&chunk.index_data, &west));
}

#[test]
fn full_chunk_culls_every_interior_face() {
    // A fully occupied chunk shows only its outer shell: six sides of
    // 16 x 16 faces, 1536 faces, 9216 indices.
    let mut gfx = GFXState::new(64, 64);
    let mut chunk = Chunk::new(&mut gfx);
    chunk.build_mesh();
    assert_eq!(chunk.index_data.len(), 6 * 16 * 16 * 6);
    assert!(chunk.index_data.len() as u32 <= INDEX_CAPACITY);
}

#[test]
fn empty_chunk_meshes_to_nothing() {
    let mut gfx = GFXState::new(64, 64);
    let mut chunk = empty_chunk(&mut gfx);
    chunk.build_mesh();
    assert_eq!(chunk.index_data.len(), 0);
    assert_eq!(chunk.index_count, 0);
}

#[test]
fn index_bytes_little_endian() {
    let indices: Vec<u32> = vec![1, 0x0102, 0xdeadbeef];
    let bytes = index_bytes(&indices);
    assert_eq!(
        bytes,
        vec![1, 0, 0, 0, 0x02, 0x01, 0, 0, 0xef, 0xbe, 0xad, 0xde]
    );
}
