use isosurface::{
    attempt_mesh_upload, index_capacity, initial_indirect_args, update_counts, update_idx,
    update_vtx, vertex_capacity, BufferData, DispatchIndirectArgs, Mesh, MeshCounts,
    UploadOutcome, VertexInfo,
};

fn vertex(x: f32, y: f32, z: f32) -> VertexInfo {
    VertexInfo {
        pos: [x.to_bits(), y.to_bits(), z.to_bits()],
        uv: [0.5f32.to_bits(), 0.25f32.to_bits()],
        normal: [0.0f32.to_bits(), 1.0f32.to_bits(), 0.0f32.to_bits()],
    }
}

fn vertex_buffer(capacity: usize, written: usize) -> Vec<VertexInfo> {
    let mut buffer = vec![VertexInfo::default(); capacity];
    for i in 0..written {
        buffer[i] = vertex(i as f32, i as f32 + 0.5, -(i as f32));
    }
    buffer
}

fn old_mesh() -> Mesh {
    Mesh {
        positions: vec![[1, 2, 3], [4, 5, 6]],
        uvs: vec![[7, 8], [9, 10]],
        indices: vec![0, 1, 0],
    }
}

fn is_old(mesh: &Option<Mesh>) -> bool {
    let old = old_mesh();
    match mesh {
        Some(m) => m.positions == old.positions && m.uvs == old.uvs && m.indices == old.indices,
        None => false,
    }
}

fn positions(mesh: &Option<Mesh>) -> Vec<[f32; 3]> {
    mesh.as_ref()
        .unwrap()
        .positions
        .iter()
        .map(|p| [f32::from_bits(p[0]), f32::from_bits(p[1]), f32::from_bits(p[2])])
        .collect()
}

#[test]
fn buffers_are_sized_for_the_worst_case() {
    assert_eq!(vertex_capacity(5), 125);
    assert_eq!(index_capacity(5), 375);
    assert_eq!(vertex_capacity(0), 0);
    assert_eq!(index_capacity(1), 3);
    assert_eq!(vertex_capacity(1127), 1_431_435_383);
    assert_eq!(index_capacity(1127), 4_294_306_149);
    assert_eq!(initial_indirect_args(), DispatchIndirectArgs { x: 1, y: 1, z: 1 });
    assert_eq!(MeshCounts::default(), MeshCounts { vtx: 0, idx: 0 });
    assert_eq!(
        VertexInfo::default(),
        VertexInfo { pos: [0; 3], uv: [0; 2], normal: [0; 3] }
    );
}

#[test]
fn attempt_with_one_or_two_slots_changes_nothing() {
    let counts = MeshCounts { vtx: 1, idx: 3 };
    for missing in 0..3 {
        for second in 0..3 {
            let mut held = BufferData::default();
            let mut mesh = Some(old_mesh());
            for slot in [second, (second + 1) % 3, (second + 2) % 3] {
                if slot == missing {
                    continue;
                }
                match slot {
                    0 => update_vtx(&mut held, vertex_buffer(8, 1)),
                    1 => update_idx(&mut held, vec![0; 24]),
                    _ => update_counts(&mut held, counts),
                }
                assert_eq!(attempt_mesh_upload(&mut held, &mut mesh), UploadOutcome::Incomplete);
                assert!(is_old(&mesh));
            }
            assert_eq!(held.vtx.is_some(), missing != 0);
            assert_eq!(held.idx.is_some(), missing != 1);
            assert_eq!(held.counts.is_some(), missing != 2);
        }
    }
}

#[test]
fn attempt_on_empty_slots_changes_nothing() {
    let mut held = BufferData::default();
    let mut mesh = Some(old_mesh());
    assert_eq!(attempt_mesh_upload(&mut held, &mut mesh), UploadOutcome::Incomplete);
    assert!(is_old(&mesh));
    let mut none: Option<Mesh> = None;
    assert_eq!(attempt_mesh_upload(&mut held, &mut none), UploadOutcome::Incomplete);
    assert!(none.is_none());
}

#[test]
fn third_slot_commits_exactly_once_in_every_order() {
    let orders = [[0, 1, 2], [0, 2, 1], [1, 0, 2], [1, 2, 0], [2, 0, 1], [2, 1, 0]];
    for order in orders {
        let mut held = BufferData::default();
        let mut mesh = Some(old_mesh());
        let mut outcomes = Vec::new();
        for slot in order {
            match slot {
                0 => update_vtx(&mut held, vertex_buffer(8, 3)),
                1 => update_idx(&mut held, vec![0, 1, 2, 2, 1, 0, 9, 9, 9, 9]),
                _ => update_counts(&mut held, MeshCounts { vtx: 3, idx: 6 }),
            }
            outcomes.push(attempt_mesh_upload(&mut held, &mut mesh));
        }
        assert_eq!(
            outcomes,
            vec![UploadOutcome::Incomplete, UploadOutcome::Incomplete, UploadOutcome::Committed]
        );
        assert!(held.vtx.is_none() && held.idx.is_none() && held.counts.is_none());
        assert_eq!(
            positions(&mesh),
            vec![[0.0, 0.5, 0.0], [1.0, 1.5, -1.0], [2.0, 2.5, -2.0]]
        );
        assert_eq!(mesh.as_ref().unwrap().uvs, vec![[0, 0]; 3]);
        assert_eq!(mesh.as_ref().unwrap().indices, vec![0, 1, 2, 2, 1, 0]);

        mesh.as_mut().unwrap().indices.push(77);
        assert_eq!(attempt_mesh_upload(&mut held, &mut mesh), UploadOutcome::Incomplete);
        assert_eq!(mesh.as_ref().unwrap().indices, vec![0, 1, 2, 2, 1, 0, 77]);
        assert_eq!(mesh.as_ref().unwrap().positions.len(), 3);
    }
}

#[test]
fn first_write_wins() {
    let mut held = BufferData::default();
    update_vtx(&mut held, vertex_buffer(4, 1));
    update_vtx(&mut held, vertex_buffer(4, 4));
    update_idx(&mut held, vec![0, 0, 0]);
    update_idx(&mut held, vec![3, 2, 1]);
    update_counts(&mut held, MeshCounts { vtx: 2, idx: 3 });
    update_counts(&mut held, MeshCounts { vtx: 4, idx: 1 });
    assert_eq!(held.vtx.as_ref().unwrap(), &vertex_buffer(4, 1));
    assert_eq!(held.idx.as_ref().unwrap(), &vec![0, 0, 0]);
    assert_eq!(held.counts, Some(MeshCounts { vtx: 2, idx: 3 }));
    let mut mesh = Some(old_mesh());
    assert_eq!(attempt_mesh_upload(&mut held, &mut mesh), UploadOutcome::Committed);
    assert_eq!(positions(&mesh), vec![[0.0, 0.5, 0.0], [0.0, 0.0, 0.0]]);
    assert_eq!(mesh.as_ref().unwrap().indices, vec![0, 0, 0]);
}

#[test]
fn duplicate_after_commit_starts_the_next_cycle() {
    let mut held = BufferData::default();
    let mut mesh = Some(old_mesh());
    update_vtx(&mut held, vertex_buffer(4, 2));
    update_idx(&mut held, vec![0, 1, 1]);
    update_counts(&mut held, MeshCounts { vtx: 2, idx: 3 });
    assert_eq!(attempt_mesh_upload(&mut held, &mut mesh), UploadOutcome::Committed);
    update_vtx(&mut held, vertex_buffer(4, 4));
    assert_eq!(attempt_mesh_upload(&mut held, &mut mesh), UploadOutcome::Incomplete);
    assert_eq!(mesh.as_ref().unwrap().positions.len(), 2);
    assert!(held.vtx.is_some() && held.idx.is_none() && held.counts.is_none());
}

#[test]
fn committed_arrays_are_cut_to_the_counts() {
    for k in [0usize, 1, 2, 7, 125] {
        let mut held = BufferData::default();
        let mut mesh = Some(old_mesh());
        update_vtx(&mut held, vertex_buffer(125, 125));
        update_idx(&mut held, (0..375u32).map(|i| i % 125).collect());
        let indices = if k == 0 { 0 } else { 3 * k - 3 };
        update_counts(&mut held, MeshCounts { vtx: k as u32, idx: indices as u32 });
        assert_eq!(attempt_mesh_upload(&mut held, &mut mesh), UploadOutcome::Committed);
        let mesh = mesh.unwrap();
        assert_eq!(mesh.positions.len(), k);
        assert_eq!(mesh.uvs.len(), k);
        assert_eq!(mesh.indices.len(), indices);
        let source = vertex_buffer(125, 125);
        for i in 0..k {
            assert_eq!(mesh.positions[i], source[i].pos);
            assert_eq!(mesh.uvs[i], [0.0f32.to_bits(), 0.0f32.to_bits()]);
        }
        for (i, &index) in mesh.indices.iter().enumerate() {
            assert_eq!(index, i as u32 % 125);
        }
    }
}

#[test]
fn indices_below_the_vertex_count_stay_below_it() {
    let mut held = BufferData::default();
    let mut mesh = Some(old_mesh());
    update_vtx(&mut held, vertex_buffer(27, 5));
    let mut idx = vec![u32::MAX; 81];
    for (i, slot) in idx.iter_mut().take(9).enumerate() {
        *slot = (i % 5) as u32;
    }
    update_idx(&mut held, idx);
    update_counts(&mut held, MeshCounts { vtx: 5, idx: 9 });
    assert_eq!(attempt_mesh_upload(&mut held, &mut mesh), UploadOutcome::Committed);
    let mesh = mesh.unwrap();
    assert_eq!(mesh.indices.len(), 9);
    assert!(mesh.indices.iter().all(|&i| (i as usize) < mesh.positions.len()));
}

#[test]
fn indices_are_passed_on_as_the_device_wrote_them() {
    let mut held = BufferData::default();
    let mut mesh = Some(old_mesh());
    update_vtx(&mut held, vertex_buffer(8, 1));
    update_idx(&mut held, vec![5, 0, 0, 1]);
    update_counts(&mut held, MeshCounts { vtx: 1, idx: 3 });
    assert_eq!(attempt_mesh_upload(&mut held, &mut mesh), UploadOutcome::Committed);
    assert_eq!(mesh.unwrap().indices, vec![5, 0, 0]);
}

#[test]
fn counts_beyond_the_buffers_pad_with_zeros() {
    let mut held = BufferData::default();
    let mut mesh = Some(old_mesh());
    update_vtx(&mut held, vertex_buffer(2, 2));
    update_idx(&mut held, vec![1, 0]);
    update_counts(&mut held, MeshCounts { vtx: 4, idx: 5 });
    assert_eq!(attempt_mesh_upload(&mut held, &mut mesh), UploadOutcome::Committed);
    assert_eq!(
        positions(&mesh),
        vec![[0.0, 0.5, 0.0], [1.0, 1.5, -1.0], [0.0, 0.0, 0.0], [0.0, 0.0, 0.0]]
    );
    let mesh = mesh.unwrap();
    assert_eq!(mesh.uvs, vec![[0, 0]; 4]);
    assert_eq!(mesh.indices, vec![1, 0, 0, 0, 0]);
}

#[test]
fn missing_mesh_consumes_the_results_and_skips() {
    let mut held = BufferData::default();
    let mut mesh: Option<Mesh> = None;
    update_counts(&mut held, MeshCounts { vtx: 1, idx: 3 });
    update_idx(&mut held, vec![0, 0, 0]);
    assert_eq!(attempt_mesh_upload(&mut held, &mut mesh), UploadOutcome::Incomplete);
    assert!(held.counts.is_some() && held.idx.is_some());
    update_vtx(&mut held, vertex_buffer(1, 1));
    assert_eq!(attempt_mesh_upload(&mut held, &mut mesh), UploadOutcome::MissingMeshTarget);
    assert!(mesh.is_none());
    assert!(held.vtx.is_none() && held.idx.is_none() && held.counts.is_none());
    assert_eq!(attempt_mesh_upload(&mut held, &mut mesh), UploadOutcome::Incomplete);
}
