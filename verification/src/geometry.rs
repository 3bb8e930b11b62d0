//! Points, triangles, and the placement of vertices on cube edges.

use vstd::prelude::*;

verus! {

/// A point of the volume's continuous space, held in half-units: a stored
/// coordinate `c` stands for the real coordinate `c / 2`.  Every vertex the
/// extractor emits lies on the midpoint of a cube edge, so half-units
/// represent it exactly.
#[derive(Clone, Copy, PartialEq, Eq, Structural, Debug)]
pub struct Point {
    /// Doubled x-coordinate.
    pub x: usize,
    /// Doubled y-coordinate.
    pub y: usize,
    /// Doubled z-coordinate.
    pub z: usize,
}

/// One triangle of the extracted mesh; the corner order carries the winding
/// the triangle table authored and is never reordered.
#[derive(Clone, Copy, PartialEq, Eq, Structural, Debug)]
pub struct Triangle {
    /// First corner.
    pub a: Point,
    /// Second corner.
    pub b: Point,
    /// Third corner.
    pub c: Point,
}

/// Half-unit offset of the midpoint of cube edge `e` within the unit voxel,
/// under the corner numbering of the cube index: edge 0 joins corners 0-1,
/// edges 1-3 close the bottom ring, edges 4-7 the top ring (corners 4-7),
/// and edges 8-11 rise from corner `i` to corner `i + 4`.
pub open spec fn edge_offset(e: int) -> (int, int, int) {
    if e == 0 {
        (1, 0, 0)
    } else if e == 1 {
        (2, 1, 0)
    } else if e == 2 {
        (1, 2, 0)
    } else if e == 3 {
        (0, 1, 0)
    } else if e == 4 {
        (1, 0, 2)
    } else if e == 5 {
        (2, 1, 2)
    } else if e == 6 {
        (1, 2, 2)
    } else if e == 7 {
        (0, 1, 2)
    } else if e == 8 {
        (0, 0, 1)
    } else if e == 9 {
        (2, 0, 1)
    } else if e == 10 {
        (2, 2, 1)
    } else {
        (0, 2, 1)
    }
}

/// The vertex that edge `e` of the voxel at `(x, y, z)` contributes, in
/// half-units.
pub open spec fn vertex_at(e: int, x: int, y: int, z: int) -> Point {
    Point {
        x: (2 * x + edge_offset(e).0) as usize,
        y: (2 * y + edge_offset(e).1) as usize,
        z: (2 * z + edge_offset(e).2) as usize,
    }
}

/// Maps a cube edge index and a voxel coordinate to the midpoint of that
/// edge, offset by the voxel's position.
pub fn get_vertex_position(edge_index: usize, x: usize, y: usize, z: usize) -> (p: Point)
    requires
        edge_index < 12,
        2 * x + 2 <= usize::MAX,
        2 * y + 2 <= usize::MAX,
        2 * z + 2 <= usize::MAX,
    ensures
        p == vertex_at(edge_index as int, x as int, y as int, z as int),
        p.x == 2 * x + edge_offset(edge_index as int).0,
        p.y == 2 * y + edge_offset(edge_index as int).1,
        p.z == 2 * z + edge_offset(edge_index as int).2,
{
    if edge_index == 0 {
        Point { x: 2 * x + 1, y: 2 * y, z: 2 * z }
    } else if edge_index == 1 {
        Point { x: 2 * x + 2, y: 2 * y + 1, z: 2 * z }
    } else if edge_index == 2 {
        Point { x: 2 * x + 1, y: 2 * y + 2, z: 2 * z }
    } else if edge_index == 3 {
        Point { x: 2 * x, y: 2 * y + 1, z: 2 * z }
    } else if edge_index == 4 {
        Point { x: 2 * x + 1, y: 2 * y, z: 2 * z + 2 }
    } else if edge_index == 5 {
        Point { x: 2 * x + 2, y: 2 * y + 1, z: 2 * z + 2 }
    } else if edge_index == 6 {
        Point { x: 2 * x + 1, y: 2 * y + 2, z: 2 * z + 2 }
    } else if edge_index == 7 {
        Point { x: 2 * x, y: 2 * y + 1, z: 2 * z + 2 }
    } else if edge_index == 8 {
        Point { x: 2 * x, y: 2 * y, z: 2 * z + 1 }
    } else if edge_index == 9 {
        Point { x: 2 * x + 2, y: 2 * y, z: 2 * z + 1 }
    } else if edge_index == 10 {
        Point { x: 2 * x + 2, y: 2 * y + 2, z: 2 * z + 1 }
    } else {
        Point { x: 2 * x, y: 2 * y + 2, z: 2 * z + 1 }
    }
}

} // verus!
