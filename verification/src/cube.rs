//! Geometry of one cell: its eight corners, its twelve edges and the points
//! on them where the surface is placed.

use crate::field::GridPoint;
use vstd::prelude::*;

verus! {

/// Offsets of the eight corners of a cell from its origin, by corner number.
pub const VERTICES: [(u32, u32, u32); 8] = [
    (0, 0, 0),
    (1, 0, 0),
    (1, 1, 0),
    (0, 1, 0),
    (0, 0, 1),
    (1, 0, 1),
    (1, 1, 1),
    (0, 1, 1),
];

/// The two corners that each of the twelve edges of a cell joins, by edge number.
pub const EDGES: [(usize, usize); 12] = [
    (0, 1),
    (1, 2),
    (2, 3),
    (3, 0),
    (4, 5),
    (5, 6),
    (6, 7),
    (7, 4),
    (0, 4),
    (1, 5),
    (2, 6),
    (3, 7),
];

/// A position measured in half cells: the grid point `(x, y, z)` is the
/// half point `(2x, 2y, 2z)`, and the midpoint of an edge has one odd
/// coordinate.
#[derive(Clone, Copy, Debug, PartialEq, Eq, Structural)]
pub struct HalfPoint {
    pub x: u32,
    pub y: u32,
    pub z: u32,
}

/// The grid point at corner `corner` of the cell whose origin is `pos`.
pub open spec fn cell_corner(pos: GridPoint, corner: int) -> GridPoint {
    GridPoint {
        x: (pos.x + VERTICES[corner].0) as u32,
        y: (pos.y + VERTICES[corner].1) as u32,
        z: (pos.z + VERTICES[corner].2) as u32,
    }
}

/// The point halfway between corners `a` and `b` of the cell at the origin.
pub open spec fn midpoint(a: int, b: int) -> HalfPoint {
    HalfPoint {
        x: (VERTICES[a].0 + VERTICES[b].0) as u32,
        y: (VERTICES[a].1 + VERTICES[b].1) as u32,
        z: (VERTICES[a].2 + VERTICES[b].2) as u32,
    }
}

/// The point where the surface crosses edge `edge` of the cell at the origin:
/// always the middle of the edge, whatever the two samples are.
pub open spec fn edge_midpoint(edge: int) -> HalfPoint {
    midpoint(EDGES[edge].0 as int, EDGES[edge].1 as int)
}

/// Every corner lies at most one step from the origin of its cell along each axis.
pub proof fn lemma_corner_offsets(corner: int)
    requires
        0 <= corner < 8,
    ensures
        VERTICES[corner].0 <= 1,
        VERTICES[corner].1 <= 1,
        VERTICES[corner].2 <= 1,
{
}

/// The midpoint of two corners does not depend on the order in which they are given.
pub proof fn lemma_midpoint_symmetric(a: int, b: int)
    ensures
        midpoint(a, b) == midpoint(b, a),
{
}

/// Every edge joins two different corners of the cell that differ in exactly
/// one coordinate, so its midpoint has exactly one odd coordinate.
pub proof fn lemma_edges_are_axis_aligned(edge: int)
    requires
        0 <= edge < 12,
    ensures
        0 <= EDGES[edge].0 < 8,
        0 <= EDGES[edge].1 < 8,
        EDGES[edge].0 != EDGES[edge].1,
        edge_midpoint(edge).x <= 2,
        edge_midpoint(edge).y <= 2,
        edge_midpoint(edge).z <= 2,
        (edge_midpoint(edge).x + edge_midpoint(edge).y + edge_midpoint(edge).z) % 2 == 1,
{
}

/// The point halfway between corners `a` and `b` of the cell at the origin.
pub fn corner_midpoint(a: usize, b: usize) -> (p: HalfPoint)
    requires
        a < 8,
        b < 8,
    ensures
        p == midpoint(a as int, b as int),
{
    let v0 = VERTICES[a];
    let v1 = VERTICES[b];
    HalfPoint { x: v0.0 + v1.0, y: v0.1 + v1.1, z: v0.2 + v1.2 }
}

/// The point where the surface crosses edge `edge` of the cell at the origin.
pub fn edge_to_vtx(edge: usize) -> (p: HalfPoint)
    requires
        edge < 12,
    ensures
        p == edge_midpoint(edge as int),
{
    let (v0_idx, v1_idx) = EDGES[edge];
    corner_midpoint(v0_idx, v1_idx)
}

/// The eight grid points at the corners of the cell whose origin is `pos`,
/// in corner order.
pub fn corners_from_cell(pos: GridPoint) -> (corners: Vec<GridPoint>)
    requires
        pos.x < u32::MAX,
        pos.y < u32::MAX,
        pos.z < u32::MAX,
    ensures
        corners@.len() == 8,
        forall|i: int| 0 <= i < 8 ==> corners@[i] == cell_corner(pos, i),
{
    let mut corners: Vec<GridPoint> = Vec::with_capacity(8);
    let mut i: usize = 0;
    while i < 8
        invariant
            i <= 8,
            pos.x < u32::MAX,
            pos.y < u32::MAX,
            pos.z < u32::MAX,
            corners@.len() == i,
            forall|j: int| 0 <= j < i ==> corners@[j] == cell_corner(pos, j),
        decreases 8 - i,
    {
        let (x, y, z) = VERTICES[i];
        corners.push(GridPoint { x: pos.x + x, y: pos.y + y, z: pos.z + z });
        i += 1;
    }
    corners
}

} // verus!
