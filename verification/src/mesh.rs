//! The face-culling mesher: the specification of a chunk's triangle mesh
//! and the executable pass that computes it.
//!
//! The mesher walks every voxel in X, then Y, then Z order (X varies
//! fastest, matching the linear cell index). Empty voxels contribute no
//! geometry. For an occupied voxel, each of the six axis-aligned faces is
//! emitted as two triangles exactly when the neighbor on the far side of
//! that face is empty or outside the chunk; a face shared by two occupied
//! voxels is interior and never emitted. The chunk boundary behaves as
//! implicit empty space: there is no wraparound.
//!
//! Every quad is split along the same diagonal and wound consistently, so
//! that all front faces agree under the renderer's winding convention.

use vstd::prelude::*;

use crate::grid::vertex_index;
use crate::voxel::Direction;
use crate::voxel::Voxel;
use crate::voxel::offset_x;
use crate::voxel::offset_y;
use crate::voxel::offset_z;
use crate::CHUNK_DEPTH;
use crate::CHUNK_HEIGHT;
use crate::CHUNK_WIDTH;
use crate::VOXEL_COUNT;

verus! {

/// Linearization of voxel coordinates into the chunk's flat cell array:
/// `x + y * W + z * W * H`, written with the literal coefficients `16` and
/// `256` so that the solver can treat the formula as linear arithmetic;
/// [`lemma_linear_index_formula`] ties the literals back to the dimension
/// constants. Callers interpreting raw cell storage must assume no other
/// linearization.
pub open spec fn linear_index(x: int, y: int, z: int) -> int {
    x + y * 16 + z * 256
}

/// The literal coefficients of [`linear_index`] are exactly `W` and
/// `W * H` for the fixed chunk dimensions.
pub proof fn lemma_linear_index_formula(x: int, y: int, z: int)
    ensures
        linear_index(x, y, z) == x + y * CHUNK_WIDTH + z * CHUNK_WIDTH * CHUNK_HEIGHT,
{
    assert(x + y * CHUNK_WIDTH + z * CHUNK_WIDTH * CHUNK_HEIGHT == x + y * 16 + z * 256)
        by (nonlinear_arith)
        requires
            CHUNK_WIDTH == 16,
            CHUNK_HEIGHT == 16,
    ;
}

/// Whether `(x, y, z)` addresses a voxel cell of the chunk.
pub open spec fn voxel_in_chunk(x: int, y: int, z: int) -> bool {
    &&& 0 <= x < CHUNK_WIDTH
    &&& 0 <= y < CHUNK_HEIGHT
    &&& 0 <= z < CHUNK_DEPTH
}

/// X coordinate of the cell with linear index `n`.
pub open spec fn cell_x(n: int) -> int {
    n % 16
}

/// Y coordinate of the cell with linear index `n`.
pub open spec fn cell_y(n: int) -> int {
    (n / 16) % 16
}

/// Z coordinate of the cell with linear index `n`.
pub open spec fn cell_z(n: int) -> int {
    n / 256
}

/// Decoding a linear cell index recovers the coordinates it was built from.
pub proof fn lemma_cell_decode(x: int, y: int, z: int)
    requires
        voxel_in_chunk(x, y, z),
    ensures
        cell_x(linear_index(x, y, z)) == x,
        cell_y(linear_index(x, y, z)) == y,
        cell_z(linear_index(x, y, z)) == z,
{
    let n = linear_index(x, y, z);
    assert(n == (y + 16 * z) * 16 + x);
    vstd::arithmetic::div_mod::lemma_fundamental_div_mod_converse(n, 16, y + 16 * z, x);
    assert(y + 16 * z == z * 16 + y);
    vstd::arithmetic::div_mod::lemma_fundamental_div_mod_converse(y + 16 * z, 16, z, y);
    assert(n == z * 256 + (x + 16 * y));
    vstd::arithmetic::div_mod::lemma_fundamental_div_mod_converse(n, 256, z, x + 16 * y);
}

/// Encoding the coordinates of a decoded linear index recovers the index,
/// and the coordinates address a cell of the chunk.
pub proof fn lemma_cell_encode(n: int)
    requires
        0 <= n < VOXEL_COUNT,
    ensures
        voxel_in_chunk(cell_x(n), cell_y(n), cell_z(n)),
        linear_index(cell_x(n), cell_y(n), cell_z(n)) == n,
{
    vstd::arithmetic::div_mod::lemma_fundamental_div_mod(n, 16);
    vstd::arithmetic::div_mod::lemma_mod_bound(n, 16);
    vstd::arithmetic::div_mod::lemma_fundamental_div_mod(n / 16, 16);
    vstd::arithmetic::div_mod::lemma_mod_bound(n / 16, 16);
    vstd::arithmetic::div_mod::lemma_fundamental_div_mod(n, 256);
    vstd::arithmetic::div_mod::lemma_mod_bound(n, 256);
    // n / 256 and (n / 16) / 16 are the same quotient.
    vstd::arithmetic::div_mod::lemma_fundamental_div_mod_converse(
        n,
        256,
        (n / 16) / 16,
        (n / 16) % 16 * 16 + n % 16,
    );
}

/// Whether the cell `(x, y, z)` lies in the chunk and holds a non-empty
/// voxel. Cells outside the chunk are never occupied: the chunk has
/// implicit empty space immediately outside its extent.
pub open spec fn occupied(g: Seq<Voxel>, x: int, y: int, z: int) -> bool {
    voxel_in_chunk(x, y, z) && !g[linear_index(x, y, z)].empty
}

/// Whether the face of voxel `(x, y, z)` facing `d` is visible: the voxel
/// is occupied and the neighbor on the far side of the face is not.
pub open spec fn face_visible(g: Seq<Voxel>, x: int, y: int, z: int, d: Direction) -> bool {
    occupied(g, x, y, z) && !occupied(g, x + offset_x(d), y + offset_y(d), z + offset_z(d))
}

/// A lattice corner index narrowed to the `u32` the index buffer stores;
/// lossless on every lattice corner.
pub open spec fn vi(x: int, y: int, z: int) -> u32 {
    vertex_index(x, y, z) as u32
}

/// The six index-buffer entries of one visible face: two triangles
/// `(A, B, C)` and `(A, C, D)` over the face's corner quad `A, B, C, D`,
/// split along the fixed diagonal `A`-`C`. Every quad is traversed so that
/// the triangles of all six faces agree in winding as seen from outside
/// the voxel.
pub open spec fn face_indices(x: int, y: int, z: int, d: Direction) -> Seq<u32> {
    match d {
        Direction::TOP => seq![
            vi(x, y + 1, z),
            vi(x, y + 1, z + 1),
            vi(x + 1, y + 1, z + 1),
            vi(x, y + 1, z),
            vi(x + 1, y + 1, z + 1),
            vi(x + 1, y + 1, z),
        ],
        Direction::BOTTOM => seq![
            vi(x, y, z),
            vi(x + 1, y, z),
            vi(x + 1, y, z + 1),
            vi(x, y, z),
            vi(x + 1, y, z + 1),
            vi(x, y, z + 1),
        ],
        Direction::EAST => seq![
            vi(x + 1, y, z),
            vi(x + 1, y + 1, z),
            vi(x + 1, y + 1, z + 1),
            vi(x + 1, y, z),
            vi(x + 1, y + 1, z + 1),
            vi(x + 1, y, z + 1),
        ],
        Direction::WEST => seq![
            vi(x, y, z),
            vi(x, y, z + 1),
            vi(x, y + 1, z + 1),
            vi(x, y, z),
            vi(x, y + 1, z + 1),
            vi(x, y + 1, z),
        ],
        Direction::NORTH => seq![
            vi(x, y, z + 1),
            vi(x + 1, y, z + 1),
            vi(x + 1, y + 1, z + 1),
            vi(x, y, z + 1),
            vi(x + 1, y + 1, z + 1),
            vi(x, y + 1, z + 1),
        ],
        Direction::SOUTH => seq![
            vi(x, y, z),
            vi(x, y + 1, z),
            vi(x + 1, y + 1, z),
            vi(x, y, z),
            vi(x + 1, y + 1, z),
            vi(x + 1, y, z),
        ],
    }
}

/// The contribution of one face of one voxel to the mesh: its six indices
/// when the face is visible, nothing otherwise.
pub open spec fn face_block(g: Seq<Voxel>, x: int, y: int, z: int, d: Direction) -> Seq<u32> {
    if face_visible(g, x, y, z, d) {
        face_indices(x, y, z, d)
    } else {
        Seq::empty()
    }
}

/// The contribution of one voxel to the mesh: its visible faces' index
/// blocks, in the fixed face order TOP, BOTTOM, EAST, WEST, NORTH, SOUTH.
pub open spec fn voxel_faces(g: Seq<Voxel>, x: int, y: int, z: int) -> Seq<u32> {
    face_block(g, x, y, z, Direction::TOP) + face_block(g, x, y, z, Direction::BOTTOM)
        + face_block(g, x, y, z, Direction::EAST) + face_block(g, x, y, z, Direction::WEST)
        + face_block(g, x, y, z, Direction::NORTH) + face_block(g, x, y, z, Direction::SOUTH)
}

/// The mesh contributed by the first `n` cells in linear order.
pub open spec fn mesh_prefix(g: Seq<Voxel>, n: int) -> Seq<u32>
    decreases n,
{
    if n <= 0 {
        Seq::empty()
    } else {
        mesh_prefix(g, n - 1) + voxel_faces(g, cell_x(n - 1), cell_y(n - 1), cell_z(n - 1))
    }
}

/// The mesh contributed by the cells from linear index `n` on.
pub open spec fn mesh_from(g: Seq<Voxel>, n: int) -> Seq<u32>
    decreases VOXEL_COUNT - n,
{
    if n < 0 || n >= VOXEL_COUNT {
        Seq::empty()
    } else {
        voxel_faces(g, cell_x(n), cell_y(n), cell_z(n)) + mesh_from(g, n + 1)
    }
}

/// The complete mesh of the grid `g`: the index sequence the mesher
/// writes into the chunk's index buffer, starting at offset zero.
pub open spec fn mesh_of(g: Seq<Voxel>) -> Seq<u32> {
    mesh_prefix(g, VOXEL_COUNT as int)
}

/// Number of visible faces of the voxel `(x, y, z)`: zero unless occupied.
pub open spec fn visible_face_count(g: Seq<Voxel>, x: int, y: int, z: int) -> int {
    (if face_visible(g, x, y, z, Direction::TOP) { 1int } else { 0int })
        + (if face_visible(g, x, y, z, Direction::BOTTOM) { 1int } else { 0int })
        + (if face_visible(g, x, y, z, Direction::EAST) { 1int } else { 0int })
        + (if face_visible(g, x, y, z, Direction::WEST) { 1int } else { 0int })
        + (if face_visible(g, x, y, z, Direction::NORTH) { 1int } else { 0int })
        + (if face_visible(g, x, y, z, Direction::SOUTH) { 1int } else { 0int })
}

/// Number of visible faces over the first `n` cells in linear order.
pub open spec fn faces_prefix(g: Seq<Voxel>, n: int) -> int
    decreases n,
{
    if n <= 0 {
        0
    } else {
        faces_prefix(g, n - 1) + visible_face_count(g, cell_x(n - 1), cell_y(n - 1), cell_z(n - 1))
    }
}

/// One voxel contributes six indices per visible face.
pub proof fn lemma_voxel_faces_len(g: Seq<Voxel>, x: int, y: int, z: int)
    ensures
        voxel_faces(g, x, y, z).len() == 6 * visible_face_count(g, x, y, z),
        0 <= visible_face_count(g, x, y, z) <= 6,
{
}

/// The mesh is six indices per visible face, counted over the cells it
/// covers.
pub proof fn lemma_mesh_prefix_len(g: Seq<Voxel>, n: int)
    ensures
        mesh_prefix(g, n).len() == 6 * faces_prefix(g, n),
        0 <= faces_prefix(g, n) <= 6 * (if n >= 0 { n } else { 0 }),
    decreases n,
{
    if n > 0 {
        lemma_mesh_prefix_len(g, n - 1);
        lemma_voxel_faces_len(g, cell_x(n - 1), cell_y(n - 1), cell_z(n - 1));
    }
}

/// The whole mesh always fits the index buffer capacity: at most six faces
/// of six indices for each of the chunk's cells.
pub proof fn lemma_mesh_len_bound(g: Seq<Voxel>)
    ensures
        mesh_of(g).len() == 6 * faces_prefix(g, VOXEL_COUNT as int),
        mesh_of(g).len() <= 36 * VOXEL_COUNT,
{
    lemma_mesh_prefix_len(g, VOXEL_COUNT as int);
}

/// A grid whose only occupied voxel is `(x, y, z)` shows all six of its
/// faces: every neighbor is another cell, hence empty or out of range.
proof fn lemma_single_occupied_count(g: Seq<Voxel>, x: int, y: int, z: int)
    requires
        forall|a: int, b: int, c: int|
            #[trigger] occupied(g, a, b, c) <==> (a == x && b == y && c == z),
    ensures
        visible_face_count(g, x, y, z) == 6,
{
    assert(occupied(g, x, y, z));
    assert(face_visible(g, x, y, z, Direction::TOP));
    assert(face_visible(g, x, y, z, Direction::BOTTOM));
    assert(face_visible(g, x, y, z, Direction::EAST));
    assert(face_visible(g, x, y, z, Direction::WEST));
    assert(face_visible(g, x, y, z, Direction::NORTH));
    assert(face_visible(g, x, y, z, Direction::SOUTH));
}

/// Face count over a prefix of the cells when only `(x, y, z)` is
/// occupied: six faces once the prefix covers that cell, none before.
proof fn lemma_faces_prefix_single(g: Seq<Voxel>, x: int, y: int, z: int, n: int)
    requires
        voxel_in_chunk(x, y, z),
        forall|a: int, b: int, c: int|
            #[trigger] occupied(g, a, b, c) <==> (a == x && b == y && c == z),
        0 <= n <= VOXEL_COUNT,
    ensures
        faces_prefix(g, n) == if linear_index(x, y, z) < n {
            6int
        } else {
            0int
        },
    decreases n,
{
    if n > 0 {
        lemma_faces_prefix_single(g, x, y, z, n - 1);
        lemma_cell_encode(n - 1);
        lemma_cell_decode(x, y, z);
        let cx = cell_x(n - 1);
        let cy = cell_y(n - 1);
        let cz = cell_z(n - 1);
        if cx == x && cy == y && cz == z {
            lemma_single_occupied_count(g, x, y, z);
        } else {
            assert(!occupied(g, cx, cy, cz));
            assert(visible_face_count(g, cx, cy, cz) == 0);
        }
    }
}

/// A chunk holding exactly one occupied voxel meshes to exactly six
/// visible faces: twelve triangles, thirty-six indices.
pub proof fn lemma_single_voxel_mesh(g: Seq<Voxel>, x: int, y: int, z: int)
    requires
        g.len() == VOXEL_COUNT,
        voxel_in_chunk(x, y, z),
        forall|a: int, b: int, c: int|
            #[trigger] occupied(g, a, b, c) <==> (a == x && b == y && c == z),
    ensures
        visible_face_count(g, x, y, z) == 6,
        mesh_of(g).len() == 36,
{
    lemma_single_occupied_count(g, x, y, z);
    lemma_faces_prefix_single(g, x, y, z, VOXEL_COUNT as int);
    lemma_mesh_len_bound(g);
}

/// In a grid holding exactly the two adjacent occupied voxels `(x, y, z)`
/// and its neighbor towards `d`, each shows five faces: the shared
/// interior face is hidden from both sides.
proof fn lemma_pair_occupied_count(g: Seq<Voxel>, x: int, y: int, z: int, d: Direction)
    requires
        voxel_in_chunk(x, y, z),
        voxel_in_chunk(x + offset_x(d), y + offset_y(d), z + offset_z(d)),
        forall|a: int, b: int, c: int|
            #[trigger] occupied(g, a, b, c) <==> ((a == x && b == y && c == z) || (a == x
                + offset_x(d) && b == y + offset_y(d) && c == z + offset_z(d))),
    ensures
        !face_visible(g, x, y, z, d),
        !face_visible(
            g,
            x + offset_x(d),
            y + offset_y(d),
            z + offset_z(d),
            crate::voxel::opposite(d),
        ),
        visible_face_count(g, x, y, z) == 5,
        visible_face_count(g, x + offset_x(d), y + offset_y(d), z + offset_z(d)) == 5,
{
    let nx = x + offset_x(d);
    let ny = y + offset_y(d);
    let nz = z + offset_z(d);
    assert(occupied(g, x, y, z));
    assert(occupied(g, nx, ny, nz));
    assert forall|e: Direction| e != d implies #[trigger] face_visible(g, x, y, z, e) by {
        assert(!occupied(g, x + offset_x(e), y + offset_y(e), z + offset_z(e)));
    }
    let od = crate::voxel::opposite(d);
    assert forall|e: Direction| e != od implies #[trigger] face_visible(g, nx, ny, nz, e) by {
        assert(!occupied(g, nx + offset_x(e), ny + offset_y(e), nz + offset_z(e)));
    }
    assert(visible_face_count(g, x, y, z) == 5);
    assert(visible_face_count(g, nx, ny, nz) == 5);
}

/// Face count over a prefix of the cells when exactly the adjacent pair
/// `p` and `q` is occupied, each showing five faces.
proof fn lemma_faces_prefix_pair(
    g: Seq<Voxel>,
    x: int,
    y: int,
    z: int,
    d: Direction,
    n: int,
)
    requires
        voxel_in_chunk(x, y, z),
        voxel_in_chunk(x + offset_x(d), y + offset_y(d), z + offset_z(d)),
        forall|a: int, b: int, c: int|
            #[trigger] occupied(g, a, b, c) <==> ((a == x && b == y && c == z) || (a == x
                + offset_x(d) && b == y + offset_y(d) && c == z + offset_z(d))),
        0 <= n <= VOXEL_COUNT,
    ensures
        faces_prefix(g, n) == (if linear_index(x, y, z) < n {
            5int
        } else {
            0int
        }) + (if linear_index(x + offset_x(d), y + offset_y(d), z + offset_z(d)) < n {
            5int
        } else {
            0int
        }),
    decreases n,
{
    let nx = x + offset_x(d);
    let ny = y + offset_y(d);
    let nz = z + offset_z(d);
    if n > 0 {
        lemma_faces_prefix_pair(g, x, y, z, d, n - 1);
        lemma_cell_encode(n - 1);
        lemma_cell_decode(x, y, z);
        lemma_cell_decode(nx, ny, nz);
        let cx = cell_x(n - 1);
        let cy = cell_y(n - 1);
        let cz = cell_z(n - 1);
        if (cx == x && cy == y && cz == z) || (cx == nx && cy == ny && cz == nz) {
            lemma_pair_occupied_count(g, x, y, z, d);
        } else {
            assert(!occupied(g, cx, cy, cz));
            assert(visible_face_count(g, cx, cy, cz) == 0);
        }
    }
}

/// For two adjacent occupied voxels (and nothing else occupied), the
/// shared interior face is never visible from either side, and the mesh
/// holds exactly ten faces: sixty indices, not the seventy-two of two
/// isolated voxels.
pub proof fn lemma_adjacent_pair_mesh(g: Seq<Voxel>, x: int, y: int, z: int, d: Direction)
    requires
        g.len() == VOXEL_COUNT,
        voxel_in_chunk(x, y, z),
        voxel_in_chunk(x + offset_x(d), y + offset_y(d), z + offset_z(d)),
        forall|a: int, b: int, c: int|
            #[trigger] occupied(g, a, b, c) <==> ((a == x && b == y && c == z) || (a == x
                + offset_x(d) && b == y + offset_y(d) && c == z + offset_z(d))),
    ensures
        !face_visible(g, x, y, z, d),
        !face_visible(
            g,
            x + offset_x(d),
            y + offset_y(d),
            z + offset_z(d),
            crate::voxel::opposite(d),
        ),
        face_block(g, x, y, z, d) == Seq::<u32>::empty(),
        face_block(
            g,
            x + offset_x(d),
            y + offset_y(d),
            z + offset_z(d),
            crate::voxel::opposite(d),
        ) == Seq::<u32>::empty(),
        visible_face_count(g, x, y, z) == 5,
        visible_face_count(g, x + offset_x(d), y + offset_y(d), z + offset_z(d)) == 5,
        mesh_of(g).len() == 60,
{
    lemma_pair_occupied_count(g, x, y, z, d);
    lemma_faces_prefix_pair(g, x, y, z, d, VOXEL_COUNT as int);
    lemma_mesh_len_bound(g);
    lemma_cell_decode(x, y, z);
    lemma_cell_decode(x + offset_x(d), y + offset_y(d), z + offset_z(d));
}

/// The mesh splits at any cell boundary into the contribution of the cells
/// before it and the contribution of the cells from it on.
pub proof fn lemma_mesh_decompose(g: Seq<Voxel>, n: int)
    requires
        0 <= n <= VOXEL_COUNT,
    ensures
        mesh_of(g) == mesh_prefix(g, n) + mesh_from(g, n),
    decreases VOXEL_COUNT - n,
{
    if n == VOXEL_COUNT {
        assert(mesh_of(g) =~= mesh_prefix(g, n) + mesh_from(g, n));
    } else {
        lemma_mesh_decompose(g, n + 1);
        assert(mesh_prefix(g, n + 1) == mesh_prefix(g, n) + voxel_faces(
            g,
            cell_x(n),
            cell_y(n),
            cell_z(n),
        ));
        assert(mesh_prefix(g, n) + mesh_from(g, n) =~= mesh_prefix(g, n + 1) + mesh_from(
            g,
            n + 1,
        ));
    }
}

/// Within one voxel's contribution, a visible face's six indices stand as
/// one contiguous block.
proof fn lemma_block_offset(g: Seq<Voxel>, x: int, y: int, z: int, d: Direction)
    requires
        face_visible(g, x, y, z, d),
    ensures
        exists|j: int|
            0 <= j && j + 6 <= voxel_faces(g, x, y, z).len() && #[trigger] voxel_faces(
                g,
                x,
                y,
                z,
            ).subrange(j, j + 6) == face_indices(x, y, z, d),
{
    let b_top = face_block(g, x, y, z, Direction::TOP);
    let b_bottom = face_block(g, x, y, z, Direction::BOTTOM);
    let b_east = face_block(g, x, y, z, Direction::EAST);
    let b_west = face_block(g, x, y, z, Direction::WEST);
    let b_north = face_block(g, x, y, z, Direction::NORTH);
    let j: int = match d {
        Direction::TOP => 0,
        Direction::BOTTOM => b_top.len() as int,
        Direction::EAST => (b_top.len() + b_bottom.len()) as int,
        Direction::WEST => (b_top.len() + b_bottom.len() + b_east.len()) as int,
        Direction::NORTH => (b_top.len() + b_bottom.len() + b_east.len() + b_west.len()) as int,
        Direction::SOUTH => (b_top.len() + b_bottom.len() + b_east.len() + b_west.len()
            + b_north.len()) as int,
    };
    assert(voxel_faces(g, x, y, z).subrange(j, j + 6) =~= face_indices(x, y, z, d));
}

/// Every visible face of every occupied voxel is emitted: its six indices
/// appear contiguously somewhere in the mesh.
pub proof fn lemma_visible_face_emitted(g: Seq<Voxel>, x: int, y: int, z: int, d: Direction)
    requires
        g.len() == VOXEL_COUNT,
        face_visible(g, x, y, z, d),
    ensures
        exists|i: int|
            0 <= i && i + 6 <= mesh_of(g).len() && #[trigger] mesh_of(g).subrange(i, i + 6)
                == face_indices(x, y, z, d),
{
    let n = linear_index(x, y, z);
    lemma_cell_decode(x, y, z);
    lemma_mesh_decompose(g, n);
    let faces = voxel_faces(g, x, y, z);
    assert(mesh_from(g, n) == faces + mesh_from(g, n + 1));
    lemma_block_offset(g, x, y, z, d);
    let j = choose|j: int|
        0 <= j && j + 6 <= faces.len() && #[trigger] faces.subrange(j, j + 6) == face_indices(
            x,
            y,
            z,
            d,
        );
    let i = mesh_prefix(g, n).len() + j;
    assert(mesh_of(g).subrange(i, i + 6) =~= face_indices(x, y, z, d)) by {
        assert forall|k: int| 0 <= k < 6 implies mesh_of(g)[i + k] == face_indices(x, y, z, d)[k]
            by {
            assert(mesh_of(g)[i + k] == mesh_from(g, n)[j + k]);
            assert(mesh_from(g, n)[j + k] == faces[j + k]);
            assert(faces[j + k] == faces.subrange(j, j + 6)[k]);
        }
    }
}

/// A voxel at a chunk edge always emits its boundary-facing face: the face
/// is visible (there is no wraparound, the outside behaves as empty space)
/// and its indices appear in the mesh.
pub proof fn lemma_boundary_face_emitted(g: Seq<Voxel>, x: int, y: int, z: int, d: Direction)
    requires
        g.len() == VOXEL_COUNT,
        occupied(g, x, y, z),
        !voxel_in_chunk(x + offset_x(d), y + offset_y(d), z + offset_z(d)),
    ensures
        face_visible(g, x, y, z, d),
        exists|i: int|
            0 <= i && i + 6 <= mesh_of(g).len() && #[trigger] mesh_of(g).subrange(i, i + 6)
                == face_indices(x, y, z, d),
{
    lemma_visible_face_emitted(g, x, y, z, d);
}

/// The mesh is a function of the grid alone: two runs of the mesher over
/// an unchanged grid yield identical index sequences, and identical bytes
/// once encoded for upload.
pub proof fn lemma_mesher_idempotent(g: Seq<Voxel>, first: Seq<u32>, second: Seq<u32>)
    requires
        first == mesh_of(g),
        second == mesh_of(g),
    ensures
        first == second,
        le_bytes_of(first) == le_bytes_of(second),
{
}

/// The little-endian encoding of the first `n` indices.
pub open spec fn le_bytes_prefix(s: Seq<u32>, n: int) -> Seq<u8>
    decreases n,
{
    if n <= 0 {
        Seq::empty()
    } else {
        le_bytes_prefix(s, n - 1) + vstd::bytes::spec_u32_to_le_bytes(s[n - 1])
    }
}

/// The byte image of an index sequence as it is uploaded to the GPU: each
/// `u32` index in little-endian order.
pub open spec fn le_bytes_of(s: Seq<u32>) -> Seq<u8> {
    le_bytes_prefix(s, s.len() as int)
}

/// Encodes an index sequence into the bytes written into the GPU index
/// buffer: each index as four little-endian bytes, in order.
pub fn index_bytes(indices: &Vec<u32>) -> (bytes: Vec<u8>)
    ensures
        bytes@ == le_bytes_of(indices@),
{
    let mut bytes: Vec<u8> = Vec::new();
    let mut i: usize = 0;
    while i < indices.len()
        invariant
            0 <= i <= indices@.len(),
            bytes@ == le_bytes_prefix(indices@, i as int),
        decreases indices@.len() - i,
    {
        let mut word = vstd::bytes::u32_to_le_bytes(indices[i]);
        bytes.append(&mut word);
        i = i + 1;
    }
    bytes
}

/// Computes the lattice corner index `x + y * (W + 1) + z * (W + 1) * (H + 1)`
/// (coefficients 17 and 289 for the fixed extent).
fn corner_index(x: u32, y: u32, z: u32) -> (r: u32)
    requires
        x <= CHUNK_WIDTH,
        y <= CHUNK_HEIGHT,
        z <= CHUNK_DEPTH,
    ensures
        r == vertex_index(x as int, y as int, z as int),
{
    x + y * 17 + z * 289
}

/// Appends the six indices of the face of voxel `(x, y, z)` facing `d`.
fn emit_face(indices: &mut Vec<u32>, x: u32, y: u32, z: u32, d: Direction)
    requires
        x < CHUNK_WIDTH,
        y < CHUNK_HEIGHT,
        z < CHUNK_DEPTH,
    ensures
        final(indices)@ == old(indices)@ + face_indices(x as int, y as int, z as int, d),
{
    match d {
        Direction::TOP => {
            let a = corner_index(x, y + 1, z);
            let b = corner_index(x, y + 1, z + 1);
            let c = corner_index(x + 1, y + 1, z + 1);
            let e = corner_index(x + 1, y + 1, z);
            indices.push(a);
            indices.push(b);
            indices.push(c);
            indices.push(a);
            indices.push(c);
            indices.push(e);
        },
        Direction::BOTTOM => {
            let a = corner_index(x, y, z);
            let b = corner_index(x + 1, y, z);
            let c = corner_index(x + 1, y, z + 1);
            let e = corner_index(x, y, z + 1);
            indices.push(a);
            indices.push(b);
            indices.push(c);
            indices.push(a);
            indices.push(c);
            indices.push(e);
        },
        Direction::EAST => {
            let a = corner_index(x + 1, y, z);
            let b = corner_index(x + 1, y + 1, z);
            let c = corner_index(x + 1, y + 1, z + 1);
            let e = corner_index(x + 1, y, z + 1);
            indices.push(a);
            indices.push(b);
            indices.push(c);
            indices.push(a);
            indices.push(c);
            indices.push(e);
        },
        Direction::WEST => {
            let a = corner_index(x, y, z);
            let b = corner_index(x, y, z + 1);
            let c = corner_index(x, y + 1, z + 1);
            let e = corner_index(x, y + 1, z);
            indices.push(a);
            indices.push(b);
            indices.push(c);
            indices.push(a);
            indices.push(c);
            indices.push(e);
        },
        Direction::NORTH => {
            let a = corner_index(x, y, z + 1);
            let b = corner_index(x + 1, y, z + 1);
            let c = corner_index(x + 1, y + 1, z + 1);
            let e = corner_index(x, y + 1, z + 1);
            indices.push(a);
            indices.push(b);
            indices.push(c);
            indices.push(a);
            indices.push(c);
            indices.push(e);
        },
        Direction::SOUTH => {
            let a = corner_index(x, y, z);
            let b = corner_index(x, y + 1, z);
            let c = corner_index(x + 1, y + 1, z);
            let e = corner_index(x + 1, y, z);
            indices.push(a);
            indices.push(b);
            indices.push(c);
            indices.push(a);
            indices.push(c);
            indices.push(e);
        },
    }
    proof {
        assert(indices@ =~= old(indices)@ + face_indices(x as int, y as int, z as int, d));
    }
}

/// Whether the cell `(x, y, z)` is occupied; cells outside the chunk are
/// not.
fn cell_occupied(data: &Vec<Voxel>, x: u32, y: u32, z: u32) -> (r: bool)
    requires
        data@.len() == VOXEL_COUNT,
    ensures
        r == occupied(data@, x as int, y as int, z as int),
{
    if x < CHUNK_WIDTH && y < CHUNK_HEIGHT && z < CHUNK_DEPTH {
        let idx: usize = (x + y * 16 + z * 256) as usize;
        !data[idx].empty
    } else {
        false
    }
}

/// Whether the face of the occupied voxel `(x, y, z)` facing `d` is
/// exposed: its neighbor in that direction is empty or outside the chunk.
fn face_exposed(data: &Vec<Voxel>, x: u32, y: u32, z: u32, d: Direction) -> (r: bool)
    requires
        data@.len() == VOXEL_COUNT,
        x < CHUNK_WIDTH,
        y < CHUNK_HEIGHT,
        z < CHUNK_DEPTH,
    ensures
        r == !occupied(
            data@,
            x + offset_x(d),
            y + offset_y(d),
            z + offset_z(d),
        ),
{
    match d {
        Direction::TOP => !cell_occupied(data, x, y + 1, z),
        Direction::BOTTOM => {
            if y == 0 {
                true
            } else {
                !cell_occupied(data, x, y - 1, z)
            }
        },
        Direction::EAST => !cell_occupied(data, x + 1, y, z),
        Direction::WEST => {
            if x == 0 {
                true
            } else {
                !cell_occupied(data, x - 1, y, z)
            }
        },
        Direction::NORTH => !cell_occupied(data, x, y, z + 1),
        Direction::SOUTH => {
            if z == 0 {
                true
            } else {
                !cell_occupied(data, x, y, z - 1)
            }
        },
    }
}

/// An empty or out-of-range voxel contributes nothing to the mesh.
pub proof fn lemma_unoccupied_voxel_faces(g: Seq<Voxel>, x: int, y: int, z: int)
    requires
        !occupied(g, x, y, z),
    ensures
        voxel_faces(g, x, y, z) == Seq::<u32>::empty(),
{
    assert(voxel_faces(g, x, y, z) =~= Seq::<u32>::empty());
}

/// One step of the per-voxel emission: appending a face's indices exactly
/// when the face is visible appends the face's block.
proof fn lemma_block_append(
    g: Seq<Voxel>,
    before: Seq<u32>,
    after: Seq<u32>,
    x: int,
    y: int,
    z: int,
    d: Direction,
    emitted: bool,
)
    requires
        emitted == face_visible(g, x, y, z, d),
        after == if emitted {
            before + face_indices(x, y, z, d)
        } else {
            before
        },
    ensures
        after == before + face_block(g, x, y, z, d),
{
    if !emitted {
        assert(after =~= before + face_block(g, x, y, z, d));
    }
}

/// Reassociates the six face blocks accumulated one at a time into the
/// voxel's single contribution.
proof fn lemma_voxel_faces_assoc(g: Seq<Voxel>, s0: Seq<u32>, x: int, y: int, z: int)
    ensures
        s0 + face_block(g, x, y, z, Direction::TOP) + face_block(g, x, y, z, Direction::BOTTOM)
            + face_block(g, x, y, z, Direction::EAST) + face_block(g, x, y, z, Direction::WEST)
            + face_block(g, x, y, z, Direction::NORTH) + face_block(g, x, y, z, Direction::SOUTH)
            == s0 + voxel_faces(g, x, y, z),
{
    assert(s0 + face_block(g, x, y, z, Direction::TOP) + face_block(g, x, y, z, Direction::BOTTOM)
        + face_block(g, x, y, z, Direction::EAST) + face_block(g, x, y, z, Direction::WEST)
        + face_block(g, x, y, z, Direction::NORTH) + face_block(g, x, y, z, Direction::SOUTH)
        =~= s0 + voxel_faces(g, x, y, z));
}

/// Appends the contribution of the voxel `(x, y, z)` to the mesh: nothing
/// when the voxel is empty, otherwise the index blocks of its visible
/// faces in the fixed face order.
fn emit_voxel(data: &Vec<Voxel>, indices: &mut Vec<u32>, x: u32, y: u32, z: u32)
    requires
        data@.len() == VOXEL_COUNT,
        x < CHUNK_WIDTH,
        y < CHUNK_HEIGHT,
        z < CHUNK_DEPTH,
    ensures
        final(indices)@ == old(indices)@ + voxel_faces(data@, x as int, y as int, z as int),
{
    let ghost g = data@;
    let ghost xi = x as int;
    let ghost yi = y as int;
    let ghost zi = z as int;
    let idx: usize = (x + y * 16 + z * 256) as usize;
    if data[idx].empty {
        proof {
            lemma_unoccupied_voxel_faces(g, xi, yi, zi);
            assert(indices@ =~= indices@ + Seq::<u32>::empty());
        }
        return ;
    }
    let ghost s0 = indices@;
    let e_top = face_exposed(data, x, y, z, Direction::TOP);
    if e_top {
        emit_face(indices, x, y, z, Direction::TOP);
    }
    let ghost s1 = indices@;
    proof {
        lemma_block_append(g, s0, s1, xi, yi, zi, Direction::TOP, e_top);
    }
    let e_bottom = face_exposed(data, x, y, z, Direction::BOTTOM);
    if e_bottom {
        emit_face(indices, x, y, z, Direction::BOTTOM);
    }
    let ghost s2 = indices@;
    proof {
        lemma_block_append(g, s1, s2, xi, yi, zi, Direction::BOTTOM, e_bottom);
    }
    let e_east = face_exposed(data, x, y, z, Direction::EAST);
    if e_east {
        emit_face(indices, x, y, z, Direction::EAST);
    }
    let ghost s3 = indices@;
    proof {
        lemma_block_append(g, s2, s3, xi, yi, zi, Direction::EAST, e_east);
    }
    let e_west = face_exposed(data, x, y, z, Direction::WEST);
    if e_west {
        emit_face(indices, x, y, z, Direction::WEST);
    }
    let ghost s4 = indices@;
    proof {
        lemma_block_append(g, s3, s4, xi, yi, zi, Direction::WEST, e_west);
    }
    let e_north = face_exposed(data, x, y, z, Direction::NORTH);
    if e_north {
        emit_face(indices, x, y, z, Direction::NORTH);
    }
    let ghost s5 = indices@;
    proof {
        lemma_block_append(g, s4, s5, xi, yi, zi, Direction::NORTH, e_north);
    }
    let e_south = face_exposed(data, x, y, z, Direction::SOUTH);
    if e_south {
        emit_face(indices, x, y, z, Direction::SOUTH);
    }
    proof {
        lemma_block_append(g, s5, indices@, xi, yi, zi, Direction::SOUTH, e_south);
        lemma_voxel_faces_assoc(g, s0, xi, yi, zi);
    }
}

/// Computes the complete face-culled mesh of the grid: for every occupied
/// voxel in X, Y, Z order, the index blocks of its visible faces.
pub fn build_indices(data: &Vec<Voxel>) -> (indices: Vec<u32>)
    requires
        data@.len() == VOXEL_COUNT,
    ensures
        indices@ == mesh_of(data@),
{
    let ghost g = data@;
    let mut indices: Vec<u32> = Vec::new();
    let mut z: u32 = 0;
    while z < CHUNK_DEPTH
        invariant
            data@ == g,
            g.len() == VOXEL_COUNT,
            0 <= z <= CHUNK_DEPTH,
            indices@ == mesh_prefix(g, z * 256),
        decreases CHUNK_DEPTH - z,
    {
        let mut y: u32 = 0;
        while y < CHUNK_HEIGHT
            invariant
                data@ == g,
                g.len() == VOXEL_COUNT,
                0 <= z < CHUNK_DEPTH,
                0 <= y <= CHUNK_HEIGHT,
                indices@ == mesh_prefix(g, z * 256 + y * 16),
            decreases CHUNK_HEIGHT - y,
        {
            let mut x: u32 = 0;
            while x < CHUNK_WIDTH
                invariant
                    data@ == g,
                    g.len() == VOXEL_COUNT,
                    0 <= z < CHUNK_DEPTH,
                    0 <= y < CHUNK_HEIGHT,
                    0 <= x <= CHUNK_WIDTH,
                    indices@ == mesh_prefix(g, z * 256 + y * 16 + x),
                decreases CHUNK_WIDTH - x,
            {
                let ghost n: int = z * 256 + y * 16 + x;
                proof {
                    lemma_cell_decode(x as int, y as int, z as int);
                    assert(n == linear_index(x as int, y as int, z as int));
                }
                emit_voxel(data, &mut indices, x, y, z);
                proof {
                    assert(indices@ == mesh_prefix(g, n + 1));
                }
                x = x + 1;
            }
            y = y + 1;
        }
        z = z + 1;
    }
    indices
}

} // verus!
