//! The per-cell evaluator: walks the cells of a field in a fixed order, looks
//! each one up in the case table and places its triangles in the grid.

use crate::arrayvec_specs::{tris_get, tris_len};
use crate::cases::{
    case_triangles, corner_inside, lemma_table_edges_cross,
    lemma_uniform_cases_are_empty, table_edge, triangle_count, triangles_for, CaseIndex,
};
use crate::cube::{
    cell_corner, corners_from_cell, edge_midpoint, edge_to_vtx, lemma_corner_offsets,
    lemma_edges_are_axis_aligned, HalfPoint, EDGES,
};
use crate::field::{is_inside, DensityMap, GridPoint, MAX_N};
use vstd::prelude::*;

verus! {

/// Whether `pos` is the origin of a cell of `map`: all eight corners of the
/// cell are grid points of the field.
pub open spec fn is_cell(map: &DensityMap, pos: GridPoint) -> bool {
    pos.x < map.size() && pos.y < map.size() && pos.z < map.size()
}

/// The value `weight` if corner `corner` of the cell at `pos` is inside, else 0.
pub open spec fn corner_mask(map: &DensityMap, pos: GridPoint, corner: int, weight: u8) -> u8 {
    if map.inside(cell_corner(pos, corner)) {
        weight
    } else {
        0
    }
}

/// The sign pattern of the cell at `pos`: bit `i` is set exactly if the
/// sample at corner `i` is strictly positive.
pub open spec fn case_index(map: &DensityMap, pos: GridPoint) -> u8 {
    corner_mask(map, pos, 0, 0x01)
        | corner_mask(map, pos, 1, 0x02)
        | corner_mask(map, pos, 2, 0x04)
        | corner_mask(map, pos, 3, 0x08)
        | corner_mask(map, pos, 4, 0x10)
        | corner_mask(map, pos, 5, 0x20)
        | corner_mask(map, pos, 6, 0x40)
        | corner_mask(map, pos, 7, 0x80)
}

proof fn lemma_mask_bits(m0: u8, m1: u8, m2: u8, m3: u8, m4: u8, m5: u8, m6: u8, m7: u8, i: u8)
    by (bit_vector)
    requires
        m0 == 0 || m0 == 0x01,
        m1 == 0 || m1 == 0x02,
        m2 == 0 || m2 == 0x04,
        m3 == 0 || m3 == 0x08,
        m4 == 0 || m4 == 0x10,
        m5 == 0 || m5 == 0x20,
        m6 == 0 || m6 == 0x40,
        m7 == 0 || m7 == 0x80,
        i < 8,
    ensures
        (((m0 | m1 | m2 | m3 | m4 | m5 | m6 | m7) >> i) & 1 == 1) == (if i == 0 {
            m0 != 0
        } else if i == 1 {
            m1 != 0
        } else if i == 2 {
            m2 != 0
        } else if i == 3 {
            m3 != 0
        } else if i == 4 {
            m4 != 0
        } else if i == 5 {
            m5 != 0
        } else if i == 6 {
            m6 != 0
        } else {
            m7 != 0
        }),
{
}

proof fn lemma_same_bits(a: u8, b: u8)
    by (bit_vector)
    requires
        (a >> 0u8) & 1 == (b >> 0u8) & 1,
        (a >> 1u8) & 1 == (b >> 1u8) & 1,
        (a >> 2u8) & 1 == (b >> 2u8) & 1,
        (a >> 3u8) & 1 == (b >> 3u8) & 1,
        (a >> 4u8) & 1 == (b >> 4u8) & 1,
        (a >> 5u8) & 1 == (b >> 5u8) & 1,
        (a >> 6u8) & 1 == (b >> 6u8) & 1,
        (a >> 7u8) & 1 == (b >> 7u8) & 1,
    ensures
        a == b,
{
}

proof fn lemma_bit_values(a: u8, i: u8)
    by (bit_vector)
    requires
        i < 8,
    ensures
        (a >> i) & 1 == 0 || (a >> i) & 1 == 1,
{
}

proof fn lemma_set_bit(a: u8, i: u8, j: u8)
    by (bit_vector)
    requires
        i < 8,
        j < 8,
    ensures
        (((a | (1u8 << i)) >> j) & 1 == 1) == (j == i || (a >> j) & 1 == 1),
        ((0u8 >> j) & 1 == 1) == false,
{
}

/// Bit `corner` of the sign pattern of a cell says whether that corner of the
/// cell is inside.
pub proof fn lemma_case_index_bits(map: &DensityMap, pos: GridPoint, corner: int)
    requires
        0 <= corner < 8,
    ensures
        corner_inside(case_index(map, pos), corner) == map.inside(cell_corner(pos, corner)),
{
    lemma_mask_bits(
        corner_mask(map, pos, 0, 0x01),
        corner_mask(map, pos, 1, 0x02),
        corner_mask(map, pos, 2, 0x04),
        corner_mask(map, pos, 3, 0x08),
        corner_mask(map, pos, 4, 0x10),
        corner_mask(map, pos, 5, 0x20),
        corner_mask(map, pos, 6, 0x40),
        corner_mask(map, pos, 7, 0x80),
        corner as u8,
    );
}

/// A sign pattern is fixed by its eight bits: the pattern whose bit `i` tells
/// whether corner `i` is inside, for every corner, is the pattern of the cell.
pub proof fn lemma_case_index_unique(map: &DensityMap, pos: GridPoint, case: u8)
    requires
        forall|corner: int|
            0 <= corner < 8 ==> corner_inside(case, corner) == map.inside(
                cell_corner(pos, corner),
            ),
    ensures
        case == case_index(map, pos),
{
    let other = case_index(map, pos);
    assert forall|i: u8| i < 8 implies (case >> i) & 1 == (other >> i) & 1 by {
        lemma_case_index_bits(map, pos, i as int);
        assert(corner_inside(case, i as int) == corner_inside(other, i as int));
        lemma_bit_values(case, i);
        lemma_bit_values(other, i);
    }
    lemma_same_bits(case, other);
}

/// Computes the sign pattern of the cell at `pos` from its eight corner samples.
pub fn sample_density_map(map: &DensityMap, pos: GridPoint) -> (case: CaseIndex)
    requires
        is_cell(map, pos),
    ensures
        case.0 == case_index(map, pos),
{
    // The resolution is bounded, and with it every coordinate of the cell.
    let _ = map.n();
    let corners = corners_from_cell(pos);
    let mut case = 0u8;
    let mut i: u8 = 0;
    proof {
        assert forall|j: int| 0 <= j < 8 implies !corner_inside(case, j) by {
            lemma_set_bit(0, 0, j as u8);
        }
    }
    while i < 8
        invariant
            i <= 8,
            is_cell(map, pos),
            map.size() <= MAX_N,
            corners@.len() == 8,
            forall|j: int| 0 <= j < 8 ==> corners@[j] == cell_corner(pos, j),
            forall|j: int|
                0 <= j < 8 ==> corner_inside(case, j) == (j < i && map.inside(
                    cell_corner(pos, j),
                )),
        decreases 8 - i,
    {
        let corner_pos = corners[i as usize];
        proof {
            lemma_corner_offsets(i as int);
            assert(corner_pos == cell_corner(pos, i as int));
        }
        let sample = map.index(corner_pos);
        let ghost before = case;
        if is_inside(sample) {
            case |= 1u8 << i;
        }
        proof {
            assert forall|j: int| 0 <= j < 8 implies corner_inside(case, j) == (j < i + 1
                && map.inside(cell_corner(pos, j))) by {
                lemma_set_bit(before, i, j as u8);
                assert(corner_inside(before, j) == (j < i && map.inside(cell_corner(pos, j))));
            }
        }
        i += 1;
    }
    proof {
        lemma_case_index_unique(map, pos, case);
    }
    CaseIndex(case)
}

/// The point of edge `edge` of the cell at `pos`, in half cells from the
/// origin of the grid: the origin of the cell plus the midpoint of the edge.
pub open spec fn edge_point(pos: GridPoint, edge: int) -> HalfPoint {
    HalfPoint {
        x: (2 * pos.x + edge_midpoint(edge).x) as u32,
        y: (2 * pos.y + edge_midpoint(edge).y) as u32,
        z: (2 * pos.z + edge_midpoint(edge).z) as u32,
    }
}

/// Whether the half points of the cell at `pos` can be written in 32 bits.
pub open spec fn cell_fits(pos: GridPoint) -> bool {
    2 * pos.x + 2 <= u32::MAX && 2 * pos.y + 2 <= u32::MAX && 2 * pos.z + 2 <= u32::MAX
}

/// Places edge `edge` of the cell at `pos` in the grid.
fn place_edge(pos: GridPoint, edge: u8) -> (p: HalfPoint)
    requires
        cell_fits(pos),
        edge < 12,
    ensures
        p == edge_point(pos, edge as int),
{
    let mid = edge_to_vtx(edge as usize);
    proof {
        lemma_edges_are_axis_aligned(edge as int);
    }
    HalfPoint { x: 2 * pos.x + mid.x, y: 2 * pos.y + mid.y, z: 2 * pos.z + mid.z }
}

/// Maps a triangle of the cell at `pos`, given by three edges, to its three
/// corners in the grid.
pub fn edge_tri_to_triangle(pos: GridPoint, tri: [u8; 3]) -> (corners: [HalfPoint; 3])
    requires
        cell_fits(pos),
        forall|k: int| 0 <= k < 3 ==> tri[k] < 12,
    ensures
        forall|k: int| 0 <= k < 3 ==> corners[k] == edge_point(pos, tri[k] as int),
{
    [place_edge(pos, tri[0]), place_edge(pos, tri[1]), place_edge(pos, tri[2])]
}

/// Maps a triangle of the cell at `pos` to its three sides as line segments:
/// first to second corner, second to third, first to third.
pub fn edge_tri_to_lines(pos: GridPoint, tri: [u8; 3]) -> (lines: [(HalfPoint, HalfPoint); 3])
    requires
        cell_fits(pos),
        forall|k: int| 0 <= k < 3 ==> tri[k] < 12,
    ensures
        lines[0] == (edge_point(pos, tri[0] as int), edge_point(pos, tri[1] as int)),
        lines[1] == (edge_point(pos, tri[1] as int), edge_point(pos, tri[2] as int)),
        lines[2] == (edge_point(pos, tri[0] as int), edge_point(pos, tri[2] as int)),
{
    let a = place_edge(pos, tri[0]);
    let b = place_edge(pos, tri[1]);
    let c = place_edge(pos, tri[2]);
    [(a, b), (b, c), (a, c)]
}

/// The cell in place `i` of the walk over a field with `n` cells per axis:
/// `x` changes slowest and `z` fastest.
pub open spec fn cell_at(n: nat, i: int) -> GridPoint {
    let n = n as int;
    GridPoint { x: (i / (n * n)) as u32, y: ((i / n) % n) as u32, z: (i % n) as u32 }
}

/// The cells of a field with `n` cells per axis in the order in which they
/// are visited.
pub open spec fn cell_order(n: nat) -> Seq<GridPoint> {
    Seq::new(n * n * n, |i: int| cell_at(n, i))
}

/// The cell `(x, y, z)` is visited in place `(x * n + y) * n + z`, and every
/// place below `n^3` is the place of such a cell.
pub proof fn lemma_cell_at(n: nat, x: int, y: int, z: int)
    requires
        0 <= x < n,
        0 <= y < n,
        0 <= z < n,
        n <= MAX_N,
    ensures
        0 <= (x * n + y) * n + z < n * n * n,
        cell_at(n, (x * n + y) * n + z) == (GridPoint { x: x as u32, y: y as u32, z: z as u32 }),
{
    let n = n as int;
    let row = x * n + y;
    let i = row * n + z;
    assert(0 <= row < n * n && 0 <= i < n * n * n) by (nonlinear_arith)
        requires
            0 <= x < n,
            0 <= y < n,
            0 <= z < n,
            row == x * n + y,
            i == row * n + z,
    ;
    assert(i == x * (n * n) + (y * n + z) && 0 <= y * n + z < n * n) by (nonlinear_arith)
        requires
            0 <= y < n,
            0 <= z < n,
            row == x * n + y,
            i == row * n + z,
    ;
    vstd::arithmetic::div_mod::lemma_fundamental_div_mod_converse(i, n, row, z);
    vstd::arithmetic::div_mod::lemma_fundamental_div_mod_converse(row, n, x, y);
    vstd::arithmetic::div_mod::lemma_fundamental_div_mod_converse(i, n * n, x, y * n + z);
}

/// Every cell of the walk is a cell of the field.
pub proof fn lemma_cell_order_in_range(n: nat, i: int)
    requires
        0 <= i < n * n * n,
        n <= MAX_N,
    ensures
        cell_order(n)[i].x < n,
        cell_order(n)[i].y < n,
        cell_order(n)[i].z < n,
{
    let n = n as int;
    assert(n > 0) by (nonlinear_arith)
        requires
            0 <= i < n * n * n,
            0 <= n,
    ;
    let nn = n * n;
    assert(0 < nn) by (nonlinear_arith)
        requires
            0 < n,
            nn == n * n,
    ;
    vstd::arithmetic::div_mod::lemma_fundamental_div_mod(i, nn);
    vstd::arithmetic::div_mod::lemma_mod_bound(i, nn);
    vstd::arithmetic::div_mod::lemma_mod_bound(i, n);
    vstd::arithmetic::div_mod::lemma_mod_bound(i / n, n);
    let q = i / nn;
    assert(0 <= q < n) by (nonlinear_arith)
        requires
            0 <= i < n * n * n,
            0 < n,
            nn == n * n,
            i == nn * q + i % nn,
            0 <= i % nn < nn,
    ;
}

/// All cells of a field with `n` cells per axis, in the fixed order of the
/// walk: `x` outermost, then `y`, then `z`.
pub fn all_cells(n: usize) -> (cells: Vec<GridPoint>)
    requires
        n <= MAX_N,
    ensures
        cells@ == cell_order(n as nat),
{
    assert(n * n <= 1127 * 1127 && n * n * n <= 1127 * 1127 * 1127) by (nonlinear_arith)
        requires
            0 <= n <= 1127,
    ;
    let mut v: Vec<GridPoint> = Vec::with_capacity(n * n * n);
    let ghost order = cell_order(n as nat);
    let mut x: usize = 0;
    while x < n
        invariant
            x <= n <= MAX_N,
            order == cell_order(n as nat),
            v@.len() == x * n * n,
            v@ == order.take(x * n * n),
        decreases n - x,
    {
        let mut y: usize = 0;
        while y < n
            invariant
                x < n <= MAX_N,
                y <= n,
                order == cell_order(n as nat),
                v@.len() == (x * n + y) * n,
                v@ == order.take((x * n + y) * n),
            decreases n - y,
        {
            let mut z: usize = 0;
            while z < n
                invariant
                    x < n <= MAX_N,
                    y < n,
                    z <= n,
                    order == cell_order(n as nat),
                    v@.len() == (x * n + y) * n + z,
                    v@ == order.take((x * n + y) * n + z),
                decreases n - z,
            {
                proof {
                    lemma_cell_at(n as nat, x as int, y as int, z as int);
                }
                let cell = GridPoint { x: x as u32, y: y as u32, z: z as u32 };
                v.push(cell);
                proof {
                    let i = (x * n + y) * n + z;
                    assert(order[i] == cell);
                    assert(order.take(i).push(cell) == order.take(i + 1));
                }
                z += 1;
            }
            proof {
                assert((x * n + y) * n + n == (x * n + (y + 1)) * n) by (nonlinear_arith);
            }
            y += 1;
        }
        proof {
            assert((x * n + n) * n == (x + 1) * n * n) by (nonlinear_arith);
        }
        x += 1;
    }
    proof {
        assert(order.take(n * n * n) == order);
    }
    v
}

/// The corners of the triangles of the cell at `cell`, three to a triangle,
/// in the order of its table entry.
pub open spec fn cell_vertices(map: &DensityMap, cell: GridPoint) -> Seq<HalfPoint> {
    let case = case_index(map, cell);
    Seq::new(3 * triangle_count(case), |i: int| edge_point(cell, table_edge(case, i) as int))
}

/// The two corners of a triangle that its side `side` joins: first to
/// second, second to third, first to third.
pub open spec fn side_ends(side: int) -> (int, int) {
    if side == 0 {
        (0, 1)
    } else if side == 1 {
        (1, 2)
    } else {
        (0, 2)
    }
}

/// The sides of the triangles of the cell at `cell` as line segments, three
/// to a triangle, in the order of its table entry.
pub open spec fn cell_lines(map: &DensityMap, cell: GridPoint) -> Seq<(HalfPoint, HalfPoint)> {
    let case = case_index(map, cell);
    Seq::new(
        3 * triangle_count(case),
        |i: int|
            (
                edge_point(cell, table_edge(case, 3 * (i / 3) + side_ends(i % 3).0) as int),
                edge_point(cell, table_edge(case, 3 * (i / 3) + side_ends(i % 3).1) as int),
            ),
    )
}

/// The triangle corners of the given cells, cell after cell.
pub open spec fn vertices_of_cells(map: &DensityMap, cells: Seq<GridPoint>) -> Seq<HalfPoint>
    decreases cells.len(),
{
    if cells.len() == 0 {
        Seq::empty()
    } else {
        vertices_of_cells(map, cells.drop_last()) + cell_vertices(map, cells.last())
    }
}

/// The triangle sides of the given cells, cell after cell.
pub open spec fn lines_of_cells(map: &DensityMap, cells: Seq<GridPoint>) -> Seq<
    (HalfPoint, HalfPoint),
>
    decreases cells.len(),
{
    if cells.len() == 0 {
        Seq::empty()
    } else {
        lines_of_cells(map, cells.drop_last()) + cell_lines(map, cells.last())
    }
}

/// The triangle list of the whole field: every three consecutive points are
/// one triangle.
pub open spec fn mesh_vertices(map: &DensityMap) -> Seq<HalfPoint> {
    vertices_of_cells(map, cell_order(map.size()))
}

/// The wireframe of the whole field: the sides of the triangles of
/// `mesh_vertices`, in the same order.
pub open spec fn mesh_lines(map: &DensityMap) -> Seq<(HalfPoint, HalfPoint)> {
    lines_of_cells(map, cell_order(map.size()))
}

/// Evaluates every cell of the field in the order of the walk and returns the
/// corners of all triangles, three consecutive points to a triangle.
pub fn rebuild_mesh(map: &DensityMap) -> (vtx: Vec<HalfPoint>)
    ensures
        vtx@ == mesh_vertices(map),
{
    let n = map.n();
    let cells = all_cells(n);
    let mut vtx: Vec<HalfPoint> = Vec::new();
    let mut c: usize = 0;
    while c < cells.len()
        invariant
            c <= cells@.len(),
            n == map.size(),
            n <= MAX_N,
            cells@ == cell_order(n as nat),
            vtx@ == vertices_of_cells(map, cells@.take(c as int)),
        decreases cells@.len() - c,
    {
        let cell = cells[c];
        proof {
            lemma_cell_order_in_range(n as nat, c as int);
        }
        let case = sample_density_map(map, cell);
        let edges = triangles_for(case);
        let count = tris_len(&edges.tris);
        let ghost done = vtx@;
        let mut t: usize = 0;
        while t < count
            invariant
                t <= count,
                count == triangle_count(case.0),
                cell_fits(cell),
                case.0 == case_index(map, cell),
                edges@ == case_triangles(case.0),
                vtx@ == done + cell_vertices(map, cell).take(3 * t),
            decreases count - t,
        {
            let edge_tri = tris_get(&edges.tris, t);
            proof {
                lemma_table_edges_cross(case.0, t as int, 0);
                lemma_table_edges_cross(case.0, t as int, 1);
                lemma_table_edges_cross(case.0, t as int, 2);
            }
            let tri = edge_tri_to_triangle(cell, edge_tri);
            let ghost before = vtx@;
            vtx.push(tri[0]);
            vtx.push(tri[1]);
            vtx.push(tri[2]);
            proof {
                let whole = cell_vertices(map, cell);
                assert(whole[3 * t] == tri[0]);
                assert(whole[3 * t + 1] == tri[1]);
                assert(whole[3 * t + 2] == tri[2]);
                assert(vtx@ == done + whole.take(3 * t + 3));
            }
            t += 1;
        }
        proof {
            let whole = cell_vertices(map, cell);
            assert(whole.take(3 * count) == whole);
            assert(cells@.take(c + 1).drop_last() == cells@.take(c as int));
            assert(cells@.take(c + 1).last() == cell);
        }
        c += 1;
    }
    proof {
        assert(cells@.take(c as int) == cells@);
    }
    vtx
}

/// The debug wireframe: the sides of every triangle of `rebuild_mesh` as line
/// segments, or nothing at all while `visible` is off.
pub fn draw_gizmos(map: &DensityMap, visible: bool) -> (lines: Vec<(HalfPoint, HalfPoint)>)
    ensures
        visible ==> lines@ == mesh_lines(map),
        !visible ==> lines@ == Seq::<(HalfPoint, HalfPoint)>::empty(),
{
    let mut lines: Vec<(HalfPoint, HalfPoint)> = Vec::new();
    if !visible {
        return lines;
    }
    let n = map.n();
    let cells = all_cells(n);
    let mut c: usize = 0;
    while c < cells.len()
        invariant
            c <= cells@.len(),
            n == map.size(),
            n <= MAX_N,
            cells@ == cell_order(n as nat),
            lines@ == lines_of_cells(map, cells@.take(c as int)),
        decreases cells@.len() - c,
    {
        let cell = cells[c];
        proof {
            lemma_cell_order_in_range(n as nat, c as int);
        }
        let case = sample_density_map(map, cell);
        let edges = triangles_for(case);
        let count = tris_len(&edges.tris);
        let ghost done = lines@;
        let mut t: usize = 0;
        while t < count
            invariant
                t <= count,
                count == triangle_count(case.0),
                cell_fits(cell),
                case.0 == case_index(map, cell),
                edges@ == case_triangles(case.0),
                lines@ == done + cell_lines(map, cell).take(3 * t),
            decreases count - t,
        {
            let tri = tris_get(&edges.tris, t);
            proof {
                lemma_table_edges_cross(case.0, t as int, 0);
                lemma_table_edges_cross(case.0, t as int, 1);
                lemma_table_edges_cross(case.0, t as int, 2);
            }
            let sides = edge_tri_to_lines(cell, tri);
            lines.push(sides[0]);
            lines.push(sides[1]);
            lines.push(sides[2]);
            proof {
                let whole = cell_lines(map, cell);
                assert(whole[3 * t] == sides[0]);
                assert(whole[3 * t + 1] == sides[1]);
                assert(whole[3 * t + 2] == sides[2]);
                assert(lines@ == done + whole.take(3 * t + 3));
            }
            t += 1;
        }
        proof {
            let whole = cell_lines(map, cell);
            assert(whole.take(3 * count) == whole);
            assert(cells@.take(c + 1).drop_last() == cells@.take(c as int));
            assert(cells@.take(c + 1).last() == cell);
        }
        c += 1;
    }
    proof {
        assert(cells@.take(c as int) == cells@);
    }
    lines
}

/// Whether places `3t`, `3t + 1` and `3t + 2` of `lines` hold the three sides
/// of the triangle at the same places of `points`: first to second corner,
/// second to third, first to third.
pub open spec fn sides_of_triangle(
    lines: Seq<(HalfPoint, HalfPoint)>,
    points: Seq<HalfPoint>,
    t: int,
) -> bool {
    &&& lines[3 * t] == (points[3 * t], points[3 * t + 1])
    &&& lines[3 * t + 1] == (points[3 * t + 1], points[3 * t + 2])
    &&& lines[3 * t + 2] == (points[3 * t], points[3 * t + 2])
}

proof fn lemma_cell_lines_are_triangle_sides(map: &DensityMap, cell: GridPoint, t: int)
    requires
        0 <= t < triangle_count(case_index(map, cell)),
    ensures
        cell_lines(map, cell).len() == cell_vertices(map, cell).len(),
        cell_lines(map, cell).len() == 3 * triangle_count(case_index(map, cell)),
        sides_of_triangle(cell_lines(map, cell), cell_vertices(map, cell), t),
{
    assert((3 * t) / 3 == t && (3 * t) % 3 == 0);
    assert((3 * t + 1) / 3 == t && (3 * t + 1) % 3 == 1);
    assert((3 * t + 2) / 3 == t && (3 * t + 2) % 3 == 2);
}

proof fn lemma_lines_of_cells_are_triangle_sides(map: &DensityMap, cells: Seq<GridPoint>, t: int)
    requires
        0 <= t,
        3 * t < vertices_of_cells(map, cells).len(),
    ensures
        lines_of_cells(map, cells).len() == vertices_of_cells(map, cells).len(),
        vertices_of_cells(map, cells).len() % 3 == 0,
        sides_of_triangle(lines_of_cells(map, cells), vertices_of_cells(map, cells), t),
    decreases cells.len(),
{
    lemma_cells_give_whole_triangles(map, cells);
    if cells.len() > 0 {
        let before = cells.drop_last();
        let cell = cells.last();
        let done = vertices_of_cells(map, before).len() as int;
        lemma_cells_give_whole_triangles(map, before);
        if 3 * t < done {
            lemma_lines_of_cells_are_triangle_sides(map, before, t);
        } else {
            let u = t - done / 3;
            lemma_cell_lines_are_triangle_sides(map, cell, u);
        }
    }
}

proof fn lemma_cells_give_whole_triangles(map: &DensityMap, cells: Seq<GridPoint>)
    ensures
        lines_of_cells(map, cells).len() == vertices_of_cells(map, cells).len(),
        vertices_of_cells(map, cells).len() % 3 == 0,
    decreases cells.len(),
{
    if cells.len() > 0 {
        lemma_cells_give_whole_triangles(map, cells.drop_last());
    }
}

/// The wireframe shows the same triangles as the mesh: it has one line for
/// every point of the triangle list, and the three lines at the places of a
/// triangle are the three sides of that triangle.
pub proof fn lemma_lines_are_triangle_sides(map: &DensityMap, t: int)
    requires
        0 <= t,
        3 * t < mesh_vertices(map).len(),
    ensures
        mesh_lines(map).len() == mesh_vertices(map).len(),
        mesh_vertices(map).len() % 3 == 0,
        sides_of_triangle(mesh_lines(map), mesh_vertices(map), t),
{
    lemma_lines_of_cells_are_triangle_sides(map, cell_order(map.size()), t);
}

/// Whether the half point `p` lies halfway between the grid points `a` and `b`.
pub open spec fn halfway(p: HalfPoint, a: GridPoint, b: GridPoint) -> bool {
    p.x == a.x + b.x && p.y == a.y + b.y && p.z == a.z + b.z
}

/// Every point that a cell contributes lies in the middle of one of the
/// cell's edges, and the field changes sign along that edge: of the two grid
/// points that the edge joins, exactly one is inside.
pub proof fn lemma_vertices_lie_on_crossed_edges(map: &DensityMap, cell: GridPoint, i: int)
    requires
        cell_fits(cell),
        0 <= i < cell_vertices(map, cell).len(),
    ensures
        ({
            let edge = table_edge(case_index(map, cell), i) as int;
            let a = cell_corner(cell, EDGES[edge].0 as int);
            let b = cell_corner(cell, EDGES[edge].1 as int);
            &&& 0 <= edge < 12
            &&& halfway(cell_vertices(map, cell)[i], a, b)
            &&& map.inside(a) != map.inside(b)
        }),
{
    let case = case_index(map, cell);
    let t = i / 3;
    let k = i % 3;
    lemma_table_edges_cross(case, t, k);
    let edge = table_edge(case, i) as int;
    lemma_edges_are_axis_aligned(edge);
    lemma_corner_offsets(EDGES[edge].0 as int);
    lemma_corner_offsets(EDGES[edge].1 as int);
    lemma_case_index_bits(map, cell, EDGES[edge].0 as int);
    lemma_case_index_bits(map, cell, EDGES[edge].1 as int);
}

proof fn lemma_uniform_patterns(i: u8)
    by (bit_vector)
    requires
        i < 8,
    ensures
        (0u8 >> i) & 1 != 1,
        (255u8 >> i) & 1 == 1,
{
}

/// A cell whose eight corners are all outside, or all inside, has sign pattern
/// 0 or 255 and contributes no triangle and no line.
pub proof fn lemma_uniform_cell_is_empty(map: &DensityMap, cell: GridPoint)
    requires
        (forall|corner: int| 0 <= corner < 8 ==> !map.inside(cell_corner(cell, corner)))
            || (forall|corner: int| 0 <= corner < 8 ==> map.inside(cell_corner(cell, corner))),
    ensures
        case_index(map, cell) == 0 || case_index(map, cell) == 255,
        cell_vertices(map, cell) == Seq::<HalfPoint>::empty(),
        cell_lines(map, cell) == Seq::<(HalfPoint, HalfPoint)>::empty(),
{
    let case: u8 = if map.inside(cell_corner(cell, 0)) {
        255
    } else {
        0
    };
    assert forall|corner: int| 0 <= corner < 8 implies corner_inside(case, corner) == map.inside(
        cell_corner(cell, corner),
    ) by {
        lemma_uniform_patterns(corner as u8);
    }
    lemma_case_index_unique(map, cell, case);
    lemma_uniform_cases_are_empty();
}

/// The sign pattern of a cell depends only on the signs of its corner samples.
pub proof fn lemma_case_depends_on_signs(a: &DensityMap, b: &DensityMap, cell: GridPoint)
    requires
        forall|corner: int|
            0 <= corner < 8 ==> a.inside(cell_corner(cell, corner)) == b.inside(
                cell_corner(cell, corner),
            ),
    ensures
        case_index(a, cell) == case_index(b, cell),
        cell_vertices(a, cell) == cell_vertices(b, cell),
        cell_lines(a, cell) == cell_lines(b, cell),
{
    assert forall|corner: int| 0 <= corner < 8 implies corner_inside(case_index(a, cell), corner)
        == b.inside(cell_corner(cell, corner)) by {
        lemma_case_index_bits(a, cell, corner);
    }
    lemma_case_index_unique(b, cell, case_index(a, cell));
}

proof fn lemma_prefix_depends_on_signs(a: &DensityMap, b: &DensityMap, k: int)
    requires
        a.size() == b.size(),
        a.size() <= MAX_N,
        forall|p: GridPoint| a.contains(p) ==> a.inside(p) == b.inside(p),
        0 <= k <= cell_order(a.size()).len(),
    ensures
        vertices_of_cells(a, cell_order(a.size()).take(k)) == vertices_of_cells(
            b,
            cell_order(a.size()).take(k),
        ),
        lines_of_cells(a, cell_order(a.size()).take(k)) == lines_of_cells(
            b,
            cell_order(a.size()).take(k),
        ),
    decreases k,
{
    let order = cell_order(a.size());
    if k > 0 {
        lemma_prefix_depends_on_signs(a, b, k - 1);
        let cell = order[k - 1];
        lemma_cell_order_in_range(a.size(), k - 1);
        assert forall|corner: int| 0 <= corner < 8 implies a.inside(cell_corner(cell, corner))
            == b.inside(cell_corner(cell, corner)) by {
            lemma_corner_offsets(corner);
            assert(a.contains(cell_corner(cell, corner)));
        }
        lemma_case_depends_on_signs(a, b, cell);
        assert(order.take(k).drop_last() == order.take(k - 1));
        assert(order.take(k).last() == cell);
    }
}

/// The extraction is a function of the field, and of the signs of its
/// samples alone: two fields of one size that agree at every grid point on
/// which samples are inside give the same triangle list and the same
/// wireframe, point for point and in the same order. Two runs on one field
/// are the case where the two fields are the same.
pub proof fn lemma_mesh_depends_on_signs(a: &DensityMap, b: &DensityMap)
    requires
        a.size() == b.size(),
        a.size() <= MAX_N,
        forall|p: GridPoint| a.contains(p) ==> a.inside(p) == b.inside(p),
    ensures
        mesh_vertices(a) == mesh_vertices(b),
        mesh_lines(a) == mesh_lines(b),
{
    let order = cell_order(a.size());
    lemma_prefix_depends_on_signs(a, b, order.len() as int);
    assert(order.take(order.len() as int) == order);
}

} // verus!
