//! The shared vertex grid: the fixed lattice of corner positions that every
//! chunk mesh indexes into.
//!
//! The lattice has one vertex per corner of the chunk's bounding box, one
//! more than the voxel extent along each axis. A corner is addressed by
//! [`vertex_index`], and the builder emits corners in exactly that order:
//! X innermost, then Y, then Z.

use vstd::prelude::*;

use crate::CHUNK_DEPTH;
use crate::CHUNK_HEIGHT;
use crate::CHUNK_WIDTH;
use crate::VERTEX_COUNT;

verus! {

/// A lattice corner position, stored in half-units: a component with value
/// `c` stands for the world coordinate `c / 2`. Voxel centers sit at integer
/// world coordinates and faces at half-integers, so the corner at lattice
/// coordinates `(x, y, z)` has world position `(x - 0.5, y - 0.5, z - 0.5)`,
/// which is `(2x - 1, 2y - 1, 2z - 1)` in half-units. The unverified shell
/// halves the components into floats when it uploads the grid.
#[derive(Clone, Copy, PartialEq, Eq, Structural, Debug)]
pub struct VertexPos {
    pub x: i32,
    pub y: i32,
    pub z: i32,
}

/// Linearization of lattice coordinates into the shared vertex grid:
/// `x + y * (W + 1) + z * (W + 1) * (H + 1)`, written with the literal
/// coefficients `17` and `289` so that the solver can treat the formula as
/// linear arithmetic; [`lemma_vertex_index_formula`] ties the literals back
/// to the dimension constants. Callers interpreting raw buffer contents
/// must assume no other linearization.
pub open spec fn vertex_index(x: int, y: int, z: int) -> int {
    x + y * 17 + z * 289
}

/// The literal coefficients of [`vertex_index`] are exactly `W + 1` and
/// `(W + 1) * (H + 1)` for the fixed chunk dimensions.
pub proof fn lemma_vertex_index_formula(x: int, y: int, z: int)
    ensures
        vertex_index(x, y, z) == x + y * (CHUNK_WIDTH + 1) + z * (CHUNK_WIDTH + 1) * (CHUNK_HEIGHT
            + 1),
{
    assert(x + y * (CHUNK_WIDTH + 1) + z * (CHUNK_WIDTH + 1) * (CHUNK_HEIGHT + 1) == x + y * 17
        + z * 289) by (nonlinear_arith)
        requires
            CHUNK_WIDTH == 16,
            CHUNK_HEIGHT == 16,
    ;
}

/// Whether `(x, y, z)` addresses a lattice corner: each coordinate runs one
/// past the voxel extent, inclusive.
pub open spec fn corner_in_lattice(x: int, y: int, z: int) -> bool {
    &&& 0 <= x <= CHUNK_WIDTH
    &&& 0 <= y <= CHUNK_HEIGHT
    &&& 0 <= z <= CHUNK_DEPTH
}

/// The position of the lattice corner `(x, y, z)`, in half-units.
pub open spec fn lattice_vertex(x: int, y: int, z: int) -> VertexPos {
    VertexPos { x: (2 * x - 1) as i32, y: (2 * y - 1) as i32, z: (2 * z - 1) as i32 }
}

/// `vertex_index` stays within the shared vertex grid on every lattice
/// corner.
pub proof fn lemma_vertex_index_bounds(x: int, y: int, z: int)
    requires
        corner_in_lattice(x, y, z),
    ensures
        0 <= vertex_index(x, y, z) < VERTEX_COUNT,
{
}

/// `vertex_index` is injective over the lattice: distinct corners never
/// share an index, so face quads of different cells can only meet at
/// genuinely shared corner vertices.
pub proof fn lemma_vertex_index_injective(
    x1: int,
    y1: int,
    z1: int,
    x2: int,
    y2: int,
    z2: int,
)
    requires
        corner_in_lattice(x1, y1, z1),
        corner_in_lattice(x2, y2, z2),
        vertex_index(x1, y1, z1) == vertex_index(x2, y2, z2),
    ensures
        x1 == x2 && y1 == y2 && z1 == z2,
{
}

/// Builds the shared lattice of corner vertices, in exactly the order that
/// `vertex_index` prescribes: X innermost, then Y, then Z. The result is
/// built once per process and shared by reference across all chunks (see
/// the resource cache in [`crate::state`]).
pub fn build_vertex_grid() -> (grid: Vec<VertexPos>)
    ensures
        grid@.len() == VERTEX_COUNT,
        forall|x: int, y: int, z: int|
            corner_in_lattice(x, y, z) ==> #[trigger] grid@[vertex_index(x, y, z)]
                == lattice_vertex(x, y, z),
{
    let mut grid: Vec<VertexPos> = Vec::new();
    let mut z: u32 = 0;
    while z < CHUNK_DEPTH + 1
        invariant
            0 <= z <= CHUNK_DEPTH + 1,
            grid@.len() == z * 289,
            forall|a: int, b: int, c: int|
                corner_in_lattice(a, b, c) && vertex_index(a, b, c) < grid@.len()
                    ==> #[trigger] grid@[vertex_index(a, b, c)] == lattice_vertex(a, b, c),
        decreases CHUNK_DEPTH + 1 - z,
    {
        let mut y: u32 = 0;
        while y < CHUNK_HEIGHT + 1
            invariant
                0 <= z <= CHUNK_DEPTH,
                0 <= y <= CHUNK_HEIGHT + 1,
                grid@.len() == z * 289 + y * 17,
                forall|a: int, b: int, c: int|
                    corner_in_lattice(a, b, c) && vertex_index(a, b, c) < grid@.len()
                        ==> #[trigger] grid@[vertex_index(a, b, c)] == lattice_vertex(a, b, c),
            decreases CHUNK_HEIGHT + 1 - y,
        {
            let mut x: u32 = 0;
            while x < CHUNK_WIDTH + 1
                invariant
                    0 <= z <= CHUNK_DEPTH,
                    0 <= y <= CHUNK_HEIGHT,
                    0 <= x <= CHUNK_WIDTH + 1,
                    grid@.len() == z * 289 + y * 17 + x,
                    forall|a: int, b: int, c: int|
                        corner_in_lattice(a, b, c) && vertex_index(a, b, c) < grid@.len()
                            ==> #[trigger] grid@[vertex_index(a, b, c)] == lattice_vertex(
                            a,
                            b,
                            c,
                        ),
                decreases CHUNK_WIDTH + 1 - x,
            {
                let ghost old_grid = grid@;
                let px: i32 = 2 * (x as i32) - 1;
                let py: i32 = 2 * (y as i32) - 1;
                let pz: i32 = 2 * (z as i32) - 1;
                grid.push(VertexPos { x: px, y: py, z: pz });
                proof {
                    assert forall|a: int, b: int, c: int|
                        corner_in_lattice(a, b, c) && vertex_index(a, b, c) < grid@.len()
                            implies #[trigger] grid@[vertex_index(a, b, c)] == lattice_vertex(
                        a,
                        b,
                        c,
                    ) by {
                        if vertex_index(a, b, c) < old_grid.len() {
                            assert(grid@[vertex_index(a, b, c)] == old_grid[vertex_index(
                                a,
                                b,
                                c,
                            )]);
                        } else {
                            lemma_vertex_index_injective(a, b, c, x as int, y as int, z as int);
                        }
                    }
                }
                x = x + 1;
            }
            y = y + 1;
        }
        z = z + 1;
    }
    grid
}

} // verus!
