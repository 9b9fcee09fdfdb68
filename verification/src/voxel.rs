//! The per-cell voxel state and the six axis-aligned face directions.

use vstd::prelude::*;

verus! {

/// An RGB color with 8-bit channels. Voxel faces are flat-shaded with the
/// owning voxel's color; the shell converts each channel to a unit-range
/// float when it uploads vertex data.
#[derive(Clone, Copy, PartialEq, Eq, Structural, Debug)]
pub struct Color {
    pub r: u8,
    pub g: u8,
    pub b: u8,
}

/// One cell of the chunk grid. A voxel has no identity of its own: it *is*
/// its grid cell, and carries only its occupancy and its flat-shading color.
#[derive(Clone, Copy, PartialEq, Eq, Structural, Debug)]
pub struct Voxel {
    pub color: Color,
    pub empty: bool,
}

/// The state every cell starts in: occupied, pure red.
pub open spec fn default_voxel() -> Voxel {
    Voxel { color: Color { r: 255, g: 0, b: 0 }, empty: false }
}

impl Default for Voxel {
    /// The default voxel is occupied and pure red.
    fn default() -> (v: Voxel)
        ensures
            v == default_voxel(),
    {
        Voxel { color: Color { r: 255, g: 0, b: 0 }, empty: false }
    }
}

/// The six axis-aligned face directions of a voxel cube.
#[derive(Clone, Copy, PartialEq, Eq, Structural, Debug)]
pub enum Direction {
    /// Positive Y axis (+Y).
    TOP,
    /// Negative Y axis (-Y).
    BOTTOM,
    /// Positive X axis (+X).
    EAST,
    /// Negative X axis (-X).
    WEST,
    /// Positive Z axis (+Z).
    NORTH,
    /// Negative Z axis (-Z).
    SOUTH,
}

/// The direction facing the opposite way: the face a neighbor shows back.
pub open spec fn opposite(d: Direction) -> Direction {
    match d {
        Direction::TOP => Direction::BOTTOM,
        Direction::BOTTOM => Direction::TOP,
        Direction::EAST => Direction::WEST,
        Direction::WEST => Direction::EAST,
        Direction::NORTH => Direction::SOUTH,
        Direction::SOUTH => Direction::NORTH,
    }
}

/// X component of the unit offset towards the neighbor in direction `d`.
pub open spec fn offset_x(d: Direction) -> int {
    match d {
        Direction::EAST => 1,
        Direction::WEST => -1,
        _ => 0,
    }
}

/// Y component of the unit offset towards the neighbor in direction `d`.
pub open spec fn offset_y(d: Direction) -> int {
    match d {
        Direction::TOP => 1,
        Direction::BOTTOM => -1,
        _ => 0,
    }
}

/// Z component of the unit offset towards the neighbor in direction `d`.
pub open spec fn offset_z(d: Direction) -> int {
    match d {
        Direction::NORTH => 1,
        Direction::SOUTH => -1,
        _ => 0,
    }
}

} // verus!
