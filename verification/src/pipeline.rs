//! The compute path as seen from the host: which programs exist, when they
//! are ready, and which passes one cycle dispatches, in which order.

use crate::field::MAX_N;
use vstd::prelude::*;

verus! {

/// The five device programs of the compute path.
#[derive(Clone, Copy, Debug, PartialEq, Eq, Structural)]
pub enum Program {
    /// Zeroes the shared counters and buffers.
    Cleanup,
    /// Writes the derived scalar and normal volume, one invocation per grid point.
    Sdf,
    /// Places one vertex in every cell that straddles the surface.
    Vertex,
    /// Moves the placed vertices along the sampled gradient.
    Adaptivity,
    /// Connects the vertices of neighbouring cells into triangles.
    Edge,
}

/// The bind group layouts that the programs are built against.
#[derive(Clone, Copy, Debug, PartialEq, Eq, Structural)]
pub enum GroupLayout {
    /// Density texture, index lookup, vertex, index, count and indirect
    /// buffers, debug texture.
    March,
    /// The normal volume as a write-only storage texture.
    Sdf,
    /// The normal volume as a filterable texture, with its sampler.
    Adaptivity,
}

/// What a pipeline cache reports about one program.
#[derive(Clone, Copy, Debug, PartialEq, Eq, Structural)]
pub enum PipelineState {
    /// Queued for creation.
    Queued,
    /// Being created.
    Creating,
    /// Created and usable.
    Ready,
    /// Creation failed, for the given reason.
    Broken(PipelineError),
}

/// Why the creation of a program failed.
#[derive(Clone, Copy, Debug, PartialEq, Eq, Structural)]
pub enum PipelineError {
    /// The shader source has not been loaded yet.
    ShaderNotLoaded,
    /// The shader source could not be processed.
    ProcessShaderError,
    /// A module that the shader imports is not available yet.
    ShaderImportNotYetAvailable,
    /// The device rejected the shader module.
    CreateShaderModule,
}

/// A program's readiness, as the state machine reads it.
#[derive(Clone, Copy, Debug, PartialEq, Eq, Structural)]
pub enum ProgramStatus {
    /// Not usable yet, but it may still become so.
    Pending,
    /// Compiled and usable.
    Compiled,
    /// Failed to compile. A broken program does not heal.
    Failed,
}

/// How a report of the pipeline cache is read: a created pipeline is
/// compiled; a shader that could not be processed, or that the device
/// rejected, has failed; everything else is still on its way.
pub open spec fn spec_program_status(state: PipelineState) -> ProgramStatus {
    match state {
        PipelineState::Ready => ProgramStatus::Compiled,
        PipelineState::Broken(PipelineError::ProcessShaderError) => ProgramStatus::Failed,
        PipelineState::Broken(PipelineError::CreateShaderModule) => ProgramStatus::Failed,
        _ => ProgramStatus::Pending,
    }
}

/// Reads a report of the pipeline cache.
#[verifier::when_used_as_spec(spec_program_status)]
pub fn program_status(state: PipelineState) -> (status: ProgramStatus)
    ensures
        status == spec_program_status(state),
{
    match state {
        PipelineState::Ready => ProgramStatus::Compiled,
        PipelineState::Broken(PipelineError::ProcessShaderError) => ProgramStatus::Failed,
        PipelineState::Broken(PipelineError::CreateShaderModule) => ProgramStatus::Failed,
        _ => ProgramStatus::Pending,
    }
}

/// The readiness of the compute path as a whole.
#[derive(Clone, Copy, Debug, PartialEq, Eq, Structural)]
pub enum ContouringState {
    /// Programs are still compiling. The initial state.
    Loading,
    /// A program failed to compile. Terminal: nothing is dispatched again.
    Error,
    /// All programs are usable. Every cycle dispatches the full sequence.
    Done,
}

/// Whether every program of a poll is compiled.
pub open spec fn all_compiled(statuses: Seq<ProgramStatus>) -> bool {
    forall|i: int| 0 <= i < statuses.len() ==> statuses[i] == ProgramStatus::Compiled
}

/// Whether some program of a poll has failed.
pub open spec fn any_failed(statuses: Seq<ProgramStatus>) -> bool {
    exists|i: int| 0 <= i < statuses.len() && statuses[i] == ProgramStatus::Failed
}

/// The state after a poll that found `statuses`. Only `Loading` looks at
/// them: one failure is fatal, and only a poll that finds every program
/// compiled ends the loading.
pub open spec fn next_state(state: ContouringState, statuses: Seq<ProgramStatus>) -> ContouringState {
    match state {
        ContouringState::Loading => if any_failed(statuses) {
            ContouringState::Error
        } else if all_compiled(statuses) {
            ContouringState::Done
        } else {
            ContouringState::Loading
        },
        ContouringState::Error => ContouringState::Error,
        ContouringState::Done => ContouringState::Done,
    }
}

/// The state after a series of polls, first to last.
pub open spec fn state_after(state: ContouringState, polls: Seq<Seq<ProgramStatus>>) -> ContouringState
    decreases polls.len(),
{
    if polls.len() == 0 {
        state
    } else {
        next_state(state_after(state, polls.drop_last()), polls.last())
    }
}

/// Whether a poll that finds `statuses` in state `state` asks for failures to
/// be reported: only the poll that takes the machine from `Loading` to `Error`.
pub open spec fn reports(state: ContouringState, statuses: Seq<ProgramStatus>) -> bool {
    state == ContouringState::Loading && any_failed(statuses)
}

/// Failures are reported once: the poll that reports them leaves the machine
/// in `Error`, and no poll in `Error` or `Done` reports anything.
pub proof fn lemma_reported_once(
    state: ContouringState,
    statuses: Seq<ProgramStatus>,
    later: Seq<Seq<ProgramStatus>>,
    again: Seq<ProgramStatus>,
)
    requires
        reports(state, statuses),
    ensures
        next_state(state, statuses) == ContouringState::Error,
        !reports(state_after(next_state(state, statuses), later), again),
{
    lemma_settled_states_stay(ContouringState::Error, later);
}

/// If every program reports compiled, the machine is `Done` after the first poll.
pub proof fn lemma_all_compiled_reaches_done(statuses: Seq<ProgramStatus>)
    requires
        all_compiled(statuses),
    ensures
        next_state(ContouringState::Loading, statuses) == ContouringState::Done,
{
}

/// `Error` and `Done` are never left, whatever later polls find.
pub proof fn lemma_settled_states_stay(state: ContouringState, polls: Seq<Seq<ProgramStatus>>)
    requires
        state != ContouringState::Loading,
    ensures
        state_after(state, polls) == state,
    decreases polls.len(),
{
    if polls.len() > 0 {
        lemma_settled_states_stay(state, polls.drop_last());
    }
}

/// If a program reports failure while the machine is loading, the machine is
/// in `Error` after that poll and after every later poll.
pub proof fn lemma_failure_is_final(first: Seq<ProgramStatus>, later: Seq<Seq<ProgramStatus>>)
    requires
        any_failed(first),
    ensures
        next_state(ContouringState::Loading, first) == ContouringState::Error,
        state_after(next_state(ContouringState::Loading, first), later) == ContouringState::Error,
{
    lemma_settled_states_stay(ContouringState::Error, later);
}

/// How many workgroups a pass dispatches.
#[derive(Clone, Copy, Debug, PartialEq, Eq, Structural)]
pub enum Workgroups {
    /// A count fixed by the host, per axis.
    Direct(u32, u32, u32),
    /// A count that the device wrote into the indirect arguments buffer, read
    /// at offset 0. The vertex pass leaves there how many vertices it placed,
    /// so the host never waits to learn that number.
    Indirect,
}

/// One compute pass of a cycle. It binds the groups of `layouts(program)`,
/// group `i` at slot `i`.
#[derive(Clone, Copy, Debug, PartialEq, Eq, Structural)]
pub struct Pass {
    pub program: Program,
    pub workgroups: Workgroups,
}

/// The passes of one cycle over a field with `n` cells per axis, in the order
/// in which they are recorded. Each pass reads what the one before it wrote.
pub open spec fn cycle(n: nat) -> Seq<Pass> {
    seq![
        Pass { program: Program::Cleanup, workgroups: Workgroups::Direct(1, 1, 1) },
        Pass {
            program: Program::Sdf,
            workgroups: Workgroups::Direct((n + 1) as u32, (n + 1) as u32, (n + 1) as u32),
        },
        Pass { program: Program::Vertex, workgroups: Workgroups::Direct(n as u32, n as u32, n as u32) },
        Pass { program: Program::Adaptivity, workgroups: Workgroups::Indirect },
        Pass { program: Program::Edge, workgroups: Workgroups::Direct(n as u32, n as u32, n as u32) },
    ]
}

/// The bind group layouts of a program's pipeline, by slot. Every program
/// sees the shared group at slot 0.
pub open spec fn spec_layouts(program: Program) -> Seq<GroupLayout> {
    match program {
        Program::Sdf => seq![GroupLayout::March, GroupLayout::Sdf],
        Program::Adaptivity => seq![GroupLayout::March, GroupLayout::Adaptivity],
        _ => seq![GroupLayout::March],
    }
}

/// The bind group layouts of a program's pipeline, by slot.
pub fn layouts(program: Program) -> (groups: Vec<GroupLayout>)
    ensures
        groups@ == spec_layouts(program),
{
    let mut groups: Vec<GroupLayout> = Vec::new();
    groups.push(GroupLayout::March);
    match program {
        Program::Sdf => groups.push(GroupLayout::Sdf),
        Program::Adaptivity => groups.push(GroupLayout::Adaptivity),
        _ => {},
    }
    groups
}

/// The shader file that holds a program, relative to the asset root.
pub open spec fn spec_shader_path(program: Program) -> Seq<char> {
    match program {
        Program::Sdf => "shaders/sdf.wgsl"@,
        Program::Adaptivity => "shaders/adaptivity.wgsl"@,
        _ => "shaders/contour.wgsl"@,
    }
}

/// The shader file that holds a program, relative to the asset root.
pub fn shader_path(program: Program) -> (path: &'static str)
    ensures
        path@ == spec_shader_path(program),
{
    match program {
        Program::Sdf => "shaders/sdf.wgsl",
        Program::Adaptivity => "shaders/adaptivity.wgsl",
        _ => "shaders/contour.wgsl",
    }
}

/// The name of a program's entry point in its shader file.
pub open spec fn spec_entry_point(program: Program) -> Seq<char> {
    match program {
        Program::Cleanup => "cleanup"@,
        Program::Sdf => "compute_sdf"@,
        Program::Vertex => "compute_vertices"@,
        Program::Adaptivity => "compute_adaptivity"@,
        Program::Edge => "compute_edges"@,
    }
}

/// The name of a program's entry point in its shader file.
pub fn entry_point(program: Program) -> (name: &'static str)
    ensures
        name@ == spec_entry_point(program),
{
    match program {
        Program::Cleanup => "cleanup",
        Program::Sdf => "compute_sdf",
        Program::Vertex => "compute_vertices",
        Program::Adaptivity => "compute_adaptivity",
        Program::Edge => "compute_edges",
    }
}

/// The value of the `GRID_SIZE` definition that the adaptivity program is
/// compiled with: the number of grid points per axis.
pub fn grid_size(n: usize) -> (size: u32)
    requires
        n <= MAX_N,
    ensures
        size == n + 1,
{
    (n + 1) as u32
}

/// The render graph node that drives the compute path.
pub struct ContouringNode(pub ContouringState);

impl ContouringNode {
    /// A node that is still loading.
    pub fn new() -> (node: ContouringNode)
        ensures
            node.0 == ContouringState::Loading,
    {
        ContouringNode(ContouringState::Loading)
    }

    /// One poll: takes the status of every program and moves the machine.
    /// Returns whether failures are to be reported now, which is so exactly
    /// in the poll that moves the machine into `Error`.
    pub fn update(&mut self, statuses: &[ProgramStatus; 5]) -> (report: bool)
        ensures
            final(self).0 == next_state(old(self).0, statuses@),
            report == reports(old(self).0, statuses@),
    {
        match self.0 {
            ContouringState::Error => false,
            ContouringState::Done => false,
            ContouringState::Loading => {
                let mut done = true;
                let mut failed = false;
                let mut i: usize = 0;
                while i < 5
                    invariant
                        i <= 5,
                        done == all_compiled(statuses@.take(i as int)),
                        failed == any_failed(statuses@.take(i as int)),
                    decreases 5 - i,
                {
                    let ghost seen = statuses@.take(i as int);
                    let ghost more = statuses@.take(i + 1);
                    match statuses[i] {
                        ProgramStatus::Compiled => {},
                        ProgramStatus::Failed => {
                            failed = true;
                            done = false;
                        },
                        ProgramStatus::Pending => {
                            done = false;
                        },
                    }
                    proof {
                        assert(more[i as int] == statuses@[i as int]);
                        assert(forall|j: int| 0 <= j < i ==> more[j] == seen[j]);
                        if any_failed(seen) {
                            let j = choose|j: int| 0 <= j < seen.len() && seen[j] == ProgramStatus::Failed;
                            assert(more[j] == ProgramStatus::Failed);
                        }
                        if any_failed(more) && statuses@[i as int] != ProgramStatus::Failed {
                            let j = choose|j: int| 0 <= j < more.len() && more[j] == ProgramStatus::Failed;
                            assert(seen[j] == ProgramStatus::Failed);
                        }
                        if !all_compiled(seen) {
                            let j = choose|j: int| 0 <= j < seen.len() && seen[j] != ProgramStatus::Compiled;
                            assert(more[j] != ProgramStatus::Compiled);
                        }
                    }
                    i += 1;
                }
                proof {
                    assert(statuses@.take(5) == statuses@);
                }
                if failed {
                    self.0 = ContouringState::Error;
                } else if done {
                    self.0 = ContouringState::Done;
                }
                failed
            },
        }
    }

    /// The passes to record in this cycle: the full sequence once the
    /// programs are usable, nothing before that and nothing after a failure.
    pub fn run(&self, n: usize) -> (passes: Vec<Pass>)
        requires
            n <= MAX_N,
        ensures
            self.0 == ContouringState::Done ==> passes@ == cycle(n as nat),
            self.0 != ContouringState::Done ==> passes@ == Seq::<Pass>::empty(),
    {
        let mut passes: Vec<Pass> = Vec::new();
        match self.0 {
            ContouringState::Loading | ContouringState::Error => {
                return passes;
            },
            _ => {},
        }
        let grid = (n + 1) as u32;
        let cells = n as u32;
        let per_grid_vertices = Workgroups::Direct(grid, grid, grid);
        let per_grid_cells = Workgroups::Direct(cells, cells, cells);
        let once = Workgroups::Direct(1, 1, 1);
        passes.push(Pass { program: Program::Cleanup, workgroups: once });
        passes.push(Pass { program: Program::Sdf, workgroups: per_grid_vertices });
        passes.push(Pass { program: Program::Vertex, workgroups: per_grid_cells });
        passes.push(Pass { program: Program::Adaptivity, workgroups: Workgroups::Indirect });
        passes.push(Pass { program: Program::Edge, workgroups: per_grid_cells });
        proof {
            assert(passes@ =~= cycle(n as nat));
        }
        passes
    }
}

} // verus!
