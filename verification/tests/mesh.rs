use isosurface::{
    all_cells, draw_gizmos, edge_tri_to_lines, edge_tri_to_triangle, rebuild_mesh,
    sample_density_map, triangles_for, CaseIndex, DensityMap, GridPoint, HalfPoint, EDGES,
    VERTICES,
};

fn field(n: usize, samples: &[((u32, u32, u32), f32)]) -> DensityMap {
    let mut map = DensityMap::new(n);
    for &((x, y, z), value) in samples {
        *map.index_mut(GridPoint { x, y, z }) = value.to_bits();
    }
    map
}

fn scrambled_field(n: usize, seed: u32) -> DensityMap {
    let mut map = DensityMap::new(n);
    let mut state = seed;
    for x in 0..=n as u32 {
        for y in 0..=n as u32 {
            for z in 0..=n as u32 {
                state = state.wrapping_mul(1_664_525).wrapping_add(1_013_904_223);
                let value = ((state >> 8) % 2001) as f32 / 100.0 - 10.0;
                *map.index_mut(GridPoint { x, y, z }) = value.to_bits();
            }
        }
    }
    map
}

fn as_floats(p: HalfPoint) -> [f32; 3] {
    [p.x as f32 * 0.5, p.y as f32 * 0.5, p.z as f32 * 0.5]
}

fn float_midpoint(edge: usize) -> [f32; 3] {
    let (a, b) = EDGES[edge];
    let (ax, ay, az) = VERTICES[a];
    let (bx, by, bz) = VERTICES[b];
    [
        (ax as f32 + bx as f32) * 0.5,
        (ay as f32 + by as f32) * 0.5,
        (az as f32 + bz as f32) * 0.5,
    ]
}

fn float_case(map: &DensityMap, cell: GridPoint) -> u8 {
    let mut case = 0u8;
    for (i, &(x, y, z)) in VERTICES.iter().enumerate() {
        let corner = GridPoint { x: cell.x + x, y: cell.y + y, z: cell.z + z };
        if f32::from_bits(map.index(corner)) > 0.0 {
            case |= 1 << i;
        }
    }
    case
}

fn float_mesh(map: &DensityMap) -> Vec<[f32; 3]> {
    let n = map.n() as u32;
    let mut out = Vec::new();
    for x in 0..n {
        for y in 0..n {
            for z in 0..n {
                let cell = GridPoint { x, y, z };
                let entry = triangles_for(CaseIndex(float_case(map, cell)));
                for tri in &entry.tris {
                    for &edge in tri {
                        let mid = float_midpoint(edge as usize);
                        out.push([x as f32 + mid[0], y as f32 + mid[1], z as f32 + mid[2]]);
                    }
                }
            }
        }
    }
    out
}

#[test]
fn cells_are_walked_x_then_y_then_z() {
    let cells = all_cells(2);
    let expected = [
        (0, 0, 0),
        (0, 0, 1),
        (0, 1, 0),
        (0, 1, 1),
        (1, 0, 0),
        (1, 0, 1),
        (1, 1, 0),
        (1, 1, 1),
    ];
    assert_eq!(cells.len(), 8);
    for (cell, &(x, y, z)) in cells.iter().zip(expected.iter()) {
        assert_eq!(*cell, GridPoint { x, y, z });
    }
    assert_eq!(all_cells(0).len(), 0);
    assert_eq!(all_cells(1), vec![GridPoint { x: 0, y: 0, z: 0 }]);
    let cells = all_cells(5);
    assert_eq!(cells.len(), 125);
    assert_eq!(cells[37], GridPoint { x: 1, y: 2, z: 2 });
    assert_eq!(cells[124], GridPoint { x: 4, y: 4, z: 4 });
}

#[test]
fn one_positive_corner_gives_the_fan_of_case_one() {
    let map = field(2, &[((0, 0, 0), 1.0)]);
    assert_eq!(sample_density_map(&map, GridPoint { x: 0, y: 0, z: 0 }), CaseIndex(1));
    for cell in all_cells(2) {
        if cell != (GridPoint { x: 0, y: 0, z: 0 }) {
            assert_eq!(sample_density_map(&map, cell), CaseIndex(0));
        }
    }
    let entry = triangles_for(CaseIndex(1));
    assert_eq!(entry.tris.len(), 1);
    assert_eq!(entry.tris[0], [0, 8, 3]);
    let vtx = rebuild_mesh(&map);
    assert_eq!(
        vtx,
        vec![
            HalfPoint { x: 1, y: 0, z: 0 },
            HalfPoint { x: 0, y: 0, z: 1 },
            HalfPoint { x: 0, y: 1, z: 0 },
        ]
    );
    let floats: Vec<[f32; 3]> = vtx.iter().map(|&p| as_floats(p)).collect();
    assert_eq!(floats, vec![[0.5, 0.0, 0.0], [0.0, 0.0, 0.5], [0.0, 0.5, 0.0]]);
}

#[test]
fn other_corners_negative_or_zero_stay_outside() {
    let mut map = DensityMap::new(2);
    for x in 0..=2 {
        for y in 0..=2 {
            for z in 0..=2 {
                let value = if (x + y + z) % 2 == 0 { 0.0f32 } else { -3.5 };
                *map.index_mut(GridPoint { x, y, z }) = value.to_bits();
            }
        }
    }
    *map.index_mut(GridPoint { x: 0, y: 0, z: 0 }) = 0.25f32.to_bits();
    assert_eq!(rebuild_mesh(&map).len(), 3);
    assert_eq!(sample_density_map(&map, GridPoint { x: 0, y: 0, z: 0 }), CaseIndex(1));
    assert_eq!(sample_density_map(&map, GridPoint { x: 1, y: 1, z: 1 }), CaseIndex(0));
}

#[test]
fn empty_and_full_fields_give_nothing() {
    let empty = DensityMap::default();
    assert!(rebuild_mesh(&empty).is_empty());
    assert!(draw_gizmos(&empty, true).is_empty());
    let mut full = DensityMap::new(3);
    for x in 0..=3 {
        for y in 0..=3 {
            for z in 0..=3 {
                *full.index_mut(GridPoint { x, y, z }) = 4.0f32.to_bits();
            }
        }
    }
    for cell in all_cells(3) {
        assert_eq!(sample_density_map(&full, cell), CaseIndex(255));
    }
    assert!(rebuild_mesh(&full).is_empty());
    assert!(draw_gizmos(&full, true).is_empty());
    assert!(rebuild_mesh(&DensityMap::new(0)).is_empty());
}

#[test]
fn zero_and_nan_samples_are_outside() {
    let map = field(1, &[((0, 0, 0), 0.0), ((1, 0, 0), f32::NAN), ((1, 1, 0), -0.0)]);
    assert_eq!(sample_density_map(&map, GridPoint { x: 0, y: 0, z: 0 }), CaseIndex(0));
    let map = field(1, &[((1, 1, 1), f32::MIN_POSITIVE), ((0, 1, 1), f32::INFINITY)]);
    assert_eq!(sample_density_map(&map, GridPoint { x: 0, y: 0, z: 0 }), CaseIndex(0xc0));
}

#[test]
fn each_corner_sets_its_own_bit() {
    for (i, &(x, y, z)) in VERTICES.iter().enumerate() {
        let map = field(1, &[((x, y, z), 1.0)]);
        assert_eq!(
            sample_density_map(&map, GridPoint { x: 0, y: 0, z: 0 }),
            CaseIndex(1 << i)
        );
    }
}

#[test]
fn interior_point_touches_eight_cells() {
    let map = field(2, &[((1, 1, 1), 1.0)]);
    let cases: Vec<u8> = all_cells(2)
        .into_iter()
        .map(|cell| sample_density_map(&map, cell).0)
        .collect();
    assert_eq!(cases, vec![64, 4, 32, 2, 128, 8, 16, 1]);
    let vtx = rebuild_mesh(&map);
    assert_eq!(vtx.len(), 24);
    // cell (0, 0, 0), sign pattern 64: edges 10, 6, 5
    assert_eq!(vtx[0], HalfPoint { x: 2, y: 2, z: 1 });
    assert_eq!(vtx[1], HalfPoint { x: 1, y: 2, z: 2 });
    assert_eq!(vtx[2], HalfPoint { x: 2, y: 1, z: 2 });
    // cell (1, 1, 1), sign pattern 1: edges 0, 8, 3
    assert_eq!(vtx[21], HalfPoint { x: 3, y: 2, z: 2 });
    assert_eq!(vtx[22], HalfPoint { x: 2, y: 2, z: 3 });
    assert_eq!(vtx[23], HalfPoint { x: 2, y: 3, z: 2 });
}

#[test]
fn mesh_matches_the_float_evaluation() {
    for (n, seed) in [(1, 7), (2, 11), (3, 5), (5, 1), (5, 2), (6, 99)] {
        let map = scrambled_field(n, seed);
        let vtx: Vec<[f32; 3]> = rebuild_mesh(&map).into_iter().map(as_floats).collect();
        assert_eq!(vtx, float_mesh(&map));
        assert_eq!(vtx.len() % 3, 0);
    }
}

#[test]
fn case_index_matches_the_float_comparison() {
    let map = scrambled_field(4, 42);
    for cell in all_cells(4) {
        assert_eq!(sample_density_map(&map, cell).0, float_case(&map, cell));
    }
}

#[test]
fn two_runs_give_identical_lists() {
    let map = scrambled_field(5, 3);
    assert_eq!(rebuild_mesh(&map), rebuild_mesh(&map));
    assert_eq!(draw_gizmos(&map, true), draw_gizmos(&map, true));
    let again = scrambled_field(5, 3);
    assert_eq!(rebuild_mesh(&map), rebuild_mesh(&again));
}

#[test]
fn only_the_signs_matter() {
    let map = scrambled_field(4, 17);
    let mut flat = DensityMap::new(4);
    for x in 0..=4 {
        for y in 0..=4 {
            for z in 0..=4 {
                let p = GridPoint { x, y, z };
                let value = if f32::from_bits(map.index(p)) > 0.0 { 1.0f32 } else { -1.0 };
                *flat.index_mut(p) = value.to_bits();
            }
        }
    }
    assert_eq!(rebuild_mesh(&map), rebuild_mesh(&flat));
    assert_eq!(draw_gizmos(&map, true), draw_gizmos(&flat, true));
}

#[test]
fn wireframe_holds_the_sides_of_the_triangles() {
    let map = scrambled_field(3, 8);
    let vtx = rebuild_mesh(&map);
    let lines = draw_gizmos(&map, true);
    assert!(!vtx.is_empty());
    assert_eq!(lines.len(), vtx.len());
    for t in 0..vtx.len() / 3 {
        let (a, b, c) = (vtx[3 * t], vtx[3 * t + 1], vtx[3 * t + 2]);
        assert_eq!(lines[3 * t], (a, b));
        assert_eq!(lines[3 * t + 1], (b, c));
        assert_eq!(lines[3 * t + 2], (a, c));
    }
}

#[test]
fn hidden_wireframe_is_empty() {
    let map = scrambled_field(3, 8);
    assert!(draw_gizmos(&map, false).is_empty());
    assert!(!draw_gizmos(&map, true).is_empty());
}

#[test]
fn triangle_is_placed_at_its_cell() {
    let corners = edge_tri_to_triangle(GridPoint { x: 2, y: 0, z: 4 }, [0, 8, 3]);
    assert_eq!(
        corners,
        [
            HalfPoint { x: 5, y: 0, z: 8 },
            HalfPoint { x: 4, y: 0, z: 9 },
            HalfPoint { x: 4, y: 1, z: 8 },
        ]
    );
    let corners = edge_tri_to_triangle(GridPoint { x: 0, y: 0, z: 0 }, [10, 6, 5]);
    assert_eq!(
        corners.map(as_floats),
        [[1.0, 1.0, 0.5], [0.5, 1.0, 1.0], [1.0, 0.5, 1.0]]
    );
}

#[test]
fn lines_join_first_second_third_corner() {
    let pos = GridPoint { x: 1, y: 1, z: 1 };
    let [a, b, c] = edge_tri_to_triangle(pos, [11, 4, 7]);
    assert_eq!(edge_tri_to_lines(pos, [11, 4, 7]), [(a, b), (b, c), (a, c)]);
    assert_eq!(a, HalfPoint { x: 2, y: 4, z: 3 });
    assert_eq!(b, HalfPoint { x: 3, y: 2, z: 4 });
    assert_eq!(c, HalfPoint { x: 2, y: 3, z: 4 });
}
