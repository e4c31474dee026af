use isosurface::ProgramStatus::{Compiled, Failed, Pending};
use isosurface::{
    entry_point, grid_size, layouts, program_status, shader_path, ContouringNode,
    ContouringState, GroupLayout, Pass, PipelineError, PipelineState, Program, Workgroups,
};

#[test]
fn machine_starts_loading() {
    assert_eq!(ContouringNode::new().0, ContouringState::Loading);
}

#[test]
fn all_compiled_reaches_done_on_the_first_poll() {
    let mut node = ContouringNode::new();
    let report = node.update(&[Compiled; 5]);
    assert_eq!(node.0, ContouringState::Done);
    assert!(!report);
}

#[test]
fn any_failure_reaches_error_and_stays_there() {
    for broken in 0..5 {
        let mut statuses = [Compiled; 5];
        statuses[broken] = Failed;
        let mut node = ContouringNode::new();
        assert!(node.update(&statuses));
        assert_eq!(node.0, ContouringState::Error);
        for later in [[Compiled; 5], [Pending; 5], [Failed; 5], statuses] {
            assert!(!node.update(&later));
            assert_eq!(node.0, ContouringState::Error);
        }
    }
}

#[test]
fn failure_beats_pending_and_compiled() {
    let mut node = ContouringNode::new();
    assert!(node.update(&[Pending, Compiled, Failed, Pending, Compiled]));
    assert_eq!(node.0, ContouringState::Error);
    let mut node = ContouringNode::new();
    assert!(node.update(&[Failed, Failed, Failed, Failed, Failed]));
    assert_eq!(node.0, ContouringState::Error);
}

#[test]
fn pending_programs_keep_the_machine_loading() {
    let mut node = ContouringNode::new();
    for pending in 0..5 {
        let mut statuses = [Compiled; 5];
        statuses[pending] = Pending;
        assert!(!node.update(&statuses));
        assert_eq!(node.0, ContouringState::Loading);
    }
    assert!(!node.update(&[Pending; 5]));
    assert_eq!(node.0, ContouringState::Loading);
    assert!(!node.update(&[Compiled; 5]));
    assert_eq!(node.0, ContouringState::Done);
}

#[test]
fn done_is_never_left() {
    let mut node = ContouringNode(ContouringState::Done);
    for later in [[Failed; 5], [Pending; 5], [Compiled; 5]] {
        assert!(!node.update(&later));
        assert_eq!(node.0, ContouringState::Done);
    }
}

#[test]
fn reports_of_the_pipeline_cache() {
    assert_eq!(program_status(PipelineState::Queued), Pending);
    assert_eq!(program_status(PipelineState::Creating), Pending);
    assert_eq!(program_status(PipelineState::Ready), Compiled);
    assert_eq!(
        program_status(PipelineState::Broken(PipelineError::ProcessShaderError)),
        Failed
    );
    assert_eq!(
        program_status(PipelineState::Broken(PipelineError::CreateShaderModule)),
        Failed
    );
    assert_eq!(
        program_status(PipelineState::Broken(PipelineError::ShaderNotLoaded)),
        Pending
    );
    assert_eq!(
        program_status(PipelineState::Broken(PipelineError::ShaderImportNotYetAvailable)),
        Pending
    );
}

#[test]
fn nothing_is_dispatched_before_done() {
    assert!(ContouringNode(ContouringState::Loading).run(5).is_empty());
    assert!(ContouringNode(ContouringState::Error).run(5).is_empty());
}

#[test]
fn a_cycle_runs_the_five_passes_in_order() {
    let passes = ContouringNode(ContouringState::Done).run(5);
    assert_eq!(
        passes,
        vec![
            Pass { program: Program::Cleanup, workgroups: Workgroups::Direct(1, 1, 1) },
            Pass { program: Program::Sdf, workgroups: Workgroups::Direct(6, 6, 6) },
            Pass { program: Program::Vertex, workgroups: Workgroups::Direct(5, 5, 5) },
            Pass { program: Program::Adaptivity, workgroups: Workgroups::Indirect },
            Pass { program: Program::Edge, workgroups: Workgroups::Direct(5, 5, 5) },
        ]
    );
    let passes = ContouringNode(ContouringState::Done).run(0);
    assert_eq!(passes.len(), 5);
    assert_eq!(passes[1].workgroups, Workgroups::Direct(1, 1, 1));
    assert_eq!(passes[2].workgroups, Workgroups::Direct(0, 0, 0));
}

#[test]
fn every_program_sees_the_shared_group_first() {
    assert_eq!(layouts(Program::Cleanup), vec![GroupLayout::March]);
    assert_eq!(layouts(Program::Vertex), vec![GroupLayout::March]);
    assert_eq!(layouts(Program::Edge), vec![GroupLayout::March]);
    assert_eq!(layouts(Program::Sdf), vec![GroupLayout::March, GroupLayout::Sdf]);
    assert_eq!(
        layouts(Program::Adaptivity),
        vec![GroupLayout::March, GroupLayout::Adaptivity]
    );
}

#[test]
fn programs_and_their_shaders() {
    assert_eq!(entry_point(Program::Cleanup), "cleanup");
    assert_eq!(entry_point(Program::Sdf), "compute_sdf");
    assert_eq!(entry_point(Program::Vertex), "compute_vertices");
    assert_eq!(entry_point(Program::Adaptivity), "compute_adaptivity");
    assert_eq!(entry_point(Program::Edge), "compute_edges");
    assert_eq!(shader_path(Program::Cleanup), "shaders/contour.wgsl");
    assert_eq!(shader_path(Program::Vertex), "shaders/contour.wgsl");
    assert_eq!(shader_path(Program::Edge), "shaders/contour.wgsl");
    assert_eq!(shader_path(Program::Sdf), "shaders/sdf.wgsl");
    assert_eq!(shader_path(Program::Adaptivity), "shaders/adaptivity.wgsl");
    assert_eq!(grid_size(5), 6);
    assert_eq!(grid_size(0), 1);
}
