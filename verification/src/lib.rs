//! Surface extraction from a sampled density field.
//!
//! A cubic grid of density samples is turned into triangles approximating the
//! zero level set. The crate holds the case table and the per-cell evaluator
//! that walks it, the readiness state machine and pass schedule of the
//! compute path, and the three-way join that commits device results to a mesh.

pub mod arrayvec_specs;
pub mod cases;
pub mod cube;
pub mod field;
pub mod pipeline;
pub mod readback;
pub mod triangulate;

pub use crate::cases::{triangles_for, Case, CaseIndex};
pub use crate::cube::{
    corner_midpoint, corners_from_cell, edge_to_vtx, HalfPoint, EDGES, VERTICES,
};
pub use crate::field::{is_inside, DensityMap, GridPoint, MAX_N, N};
pub use crate::pipeline::{
    entry_point, grid_size, layouts, program_status, shader_path, ContouringNode,
    ContouringState, GroupLayout, Pass, PipelineError, PipelineState, Program, ProgramStatus,
    Workgroups,
};
pub use crate::readback::{
    attempt_mesh_upload, index_capacity, initial_indirect_args, update_counts, update_idx,
    update_vtx, vertex_capacity, BufferData, DispatchIndirectArgs, Mesh, MeshCounts,
    UploadOutcome, VertexInfo,
};
pub use crate::triangulate::{
    all_cells, draw_gizmos, edge_tri_to_lines, edge_tri_to_triangle, rebuild_mesh,
    sample_density_map,
};
