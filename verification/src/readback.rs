//! The way back from the device: three buffers arrive in any order, are held
//! until all of them are there, and are then committed to the mesh in one step.
//!
//! Floating-point values are carried as IEEE-754 bit patterns.

use crate::field::MAX_N;
use vstd::prelude::*;

verus! {

/// One record of the device's vertex buffer.
#[derive(Clone, Copy, Debug, PartialEq, Eq)]
pub struct VertexInfo {
    pub pos: [u32; 3],
    pub uv: [u32; 2],
    pub normal: [u32; 3],
}

/// How many vertices and indices the device really wrote. These counts, not
/// the sizes of the buffers, say how long the mesh is.
#[derive(Clone, Copy, Debug, PartialEq, Eq, Structural)]
pub struct MeshCounts {
    pub vtx: u32,
    pub idx: u32,
}

/// The work-group counts that an indirect dispatch reads from its buffer.
#[derive(Clone, Copy, Debug, PartialEq, Eq, Structural)]
pub struct DispatchIndirectArgs {
    pub x: u32,
    pub y: u32,
    pub z: u32,
}

/// The record with every value `0.0`.
pub open spec fn zero_vertex() -> VertexInfo {
    VertexInfo { pos: [0u32, 0u32, 0u32], uv: [0u32, 0u32], normal: [0u32, 0u32, 0u32] }
}

impl Default for VertexInfo {
    fn default() -> (v: VertexInfo)
        ensures
            v == zero_vertex(),
    {
        VertexInfo { pos: [0u32, 0u32, 0u32], uv: [0u32, 0u32], normal: [0u32, 0u32, 0u32] }
    }
}

impl Default for MeshCounts {
    fn default() -> (c: MeshCounts)
        ensures
            c == (MeshCounts { vtx: 0, idx: 0 }),
    {
        MeshCounts { vtx: 0, idx: 0 }
    }
}

/// The most vertices that a field with `n` cells per axis can give: one per cell.
pub open spec fn spec_vertex_capacity(n: nat) -> nat {
    n * n * n
}

/// The most indices that a field with `n` cells per axis can give: three per cell.
pub open spec fn spec_index_capacity(n: nat) -> nat {
    3 * (n * n * n)
}

/// `MAX_N` is the largest resolution whose index capacity fits 32 bits.
pub proof fn lemma_capacity_fits(n: nat)
    ensures
        n <= MAX_N <==> spec_index_capacity(n) <= u32::MAX,
        n <= MAX_N ==> spec_vertex_capacity(n) <= 1127 * 1127 * 1127,
{
    let m = n as int;
    if m <= 1127 {
        assert(m * m * m <= 1127 * 1127 * 1127) by (nonlinear_arith)
            requires
                0 <= m <= 1127,
        ;
    } else {
        assert(m * m * m >= 1128 * 1128 * 1128) by (nonlinear_arith)
            requires
                m >= 1128,
        ;
    }
}

/// The length of the vertex buffer for a field with `n` cells per axis.
pub fn vertex_capacity(n: usize) -> (len: usize)
    requires
        n <= MAX_N,
    ensures
        len == spec_vertex_capacity(n as nat),
{
    proof {
        lemma_capacity_fits(n as nat);
    }
    assert(n * n <= 1127 * 1127) by (nonlinear_arith)
        requires
            0 <= n <= 1127,
    ;
    n * n * n
}

/// The length of the index buffer for a field with `n` cells per axis.
pub fn index_capacity(n: usize) -> (len: usize)
    requires
        n <= MAX_N,
    ensures
        len == spec_index_capacity(n as nat),
{
    proof {
        lemma_capacity_fits(n as nat);
    }
    assert(n * n <= 1127 * 1127) by (nonlinear_arith)
        requires
            0 <= n <= 1127,
    ;
    n * n * n * 3
}

/// The indirect arguments before the device has written any: one work group.
pub fn initial_indirect_args() -> (args: DispatchIndirectArgs)
    ensures
        args == (DispatchIndirectArgs { x: 1, y: 1, z: 1 }),
{
    DispatchIndirectArgs { x: 1, y: 1, z: 1 }
}

/// What has arrived of one cycle's results: at most one each of the vertex
/// buffer, the index buffer and the counts.
#[derive(Debug, PartialEq, Eq)]
pub struct BufferData {
    pub vtx: Option<Vec<VertexInfo>>,
    pub idx: Option<Vec<u32>>,
    pub counts: Option<MeshCounts>,
}

/// `BufferData` as plain values.
pub struct BufferDataView {
    pub vtx: Option<Seq<VertexInfo>>,
    pub idx: Option<Seq<u32>>,
    pub counts: Option<MeshCounts>,
}

impl View for BufferData {
    type V = BufferDataView;

    open spec fn view(&self) -> BufferDataView {
        BufferDataView {
            vtx: match self.vtx {
                Some(v) => Some(v@),
                None => None,
            },
            idx: match self.idx {
                Some(v) => Some(v@),
                None => None,
            },
            counts: self.counts,
        }
    }
}

/// The geometry of the live mesh. Normals are not kept here: they follow
/// from positions and indices and are computed afresh after every commit.
#[derive(Debug, PartialEq, Eq)]
pub struct Mesh {
    pub positions: Vec<[u32; 3]>,
    pub uvs: Vec<[u32; 2]>,
    pub indices: Vec<u32>,
}

/// `Mesh` as plain values.
pub struct MeshView {
    pub positions: Seq<[u32; 3]>,
    pub uvs: Seq<[u32; 2]>,
    pub indices: Seq<u32>,
}

impl View for Mesh {
    type V = MeshView;

    open spec fn view(&self) -> MeshView {
        MeshView { positions: self.positions@, uvs: self.uvs@, indices: self.indices@ }
    }
}

/// What an attempt to commit did.
#[derive(Clone, Copy, Debug, PartialEq, Eq, Structural)]
pub enum UploadOutcome {
    /// Not all three results are there yet. Nothing was touched.
    Incomplete,
    /// The results were complete and have been consumed, but there is no
    /// mesh to write to. The commit is skipped; the next cycle tries again.
    MissingMeshTarget,
    /// The mesh was replaced.
    Committed,
}

impl BufferDataView {
    /// Nothing has arrived.
    pub open spec fn empty() -> BufferDataView {
        BufferDataView { vtx: None, idx: None, counts: None }
    }

    /// How many of the three results have arrived.
    pub open spec fn filled(self) -> nat {
        (if self.vtx is Some { 1nat } else { 0 })
            + (if self.idx is Some { 1nat } else { 0 })
            + (if self.counts is Some { 1nat } else { 0 })
    }

    /// Whether all three results have arrived.
    pub open spec fn complete(self) -> bool {
        self.vtx is Some && self.idx is Some && self.counts is Some
    }

    /// The state after a vertex buffer arrives: it is kept only if none was held.
    pub open spec fn with_vtx(self, data: Seq<VertexInfo>) -> BufferDataView {
        if self.vtx is Some {
            self
        } else {
            BufferDataView { vtx: Some(data), ..self }
        }
    }

    /// The state after an index buffer arrives: it is kept only if none was held.
    pub open spec fn with_idx(self, data: Seq<u32>) -> BufferDataView {
        if self.idx is Some {
            self
        } else {
            BufferDataView { idx: Some(data), ..self }
        }
    }

    /// The state after the counts arrive: they are kept only if none were held.
    pub open spec fn with_counts(self, data: MeshCounts) -> BufferDataView {
        if self.counts is Some {
            self
        } else {
            BufferDataView { counts: Some(data), ..self }
        }
    }
}

/// `s` cut or padded to length `len`: the first `len` elements of `s`, then
/// `fill` as often as needed.
pub open spec fn resized<T>(s: Seq<T>, len: nat, fill: T) -> Seq<T> {
    Seq::new(
        len,
        |i: int|
            if i < s.len() {
                s[i]
            } else {
                fill
            },
    )
}

/// The mesh that complete results give: as many positions and texture
/// coordinates as the counts say there are vertices, the positions taken from
/// the vertex records in order and every texture coordinate `(0.0, 0.0)`, and
/// as many indices as the counts say, in order.
pub open spec fn committed_mesh(vtx: Seq<VertexInfo>, idx: Seq<u32>, counts: MeshCounts) -> MeshView {
    MeshView {
        positions: Seq::new(
            counts.vtx as nat,
            |i: int| resized(vtx, counts.vtx as nat, zero_vertex())[i].pos,
        ),
        uvs: Seq::new(counts.vtx as nat, |i: int| [0u32, 0u32]),
        indices: resized(idx, counts.idx as nat, 0u32),
    }
}

/// What an attempt to commit does to the held results and to the mesh, where
/// `None` stands for a mesh that does not exist.
pub open spec fn attempt(held: BufferDataView, mesh: Option<MeshView>) -> (
    BufferDataView,
    Option<MeshView>,
    UploadOutcome,
) {
    if !held.complete() {
        (held, mesh, UploadOutcome::Incomplete)
    } else if mesh is None {
        (BufferDataView::empty(), mesh, UploadOutcome::MissingMeshTarget)
    } else {
        (
            BufferDataView::empty(),
            Some(committed_mesh(held.vtx->0, held.idx->0, held.counts->0)),
            UploadOutcome::Committed,
        )
    }
}

impl Default for BufferData {
    /// Nothing has arrived.
    fn default() -> (held: BufferData)
        ensures
            held@ == BufferDataView::empty(),
    {
        BufferData { vtx: None, idx: None, counts: None }
    }
}

/// A copy of the vertex buffer has arrived. The first one of a cycle is
/// kept; a second delivery is dropped.
pub fn update_vtx(buffer: &mut BufferData, data: Vec<VertexInfo>)
    ensures
        final(buffer)@ == old(buffer)@.with_vtx(data@),
{
    if buffer.vtx.is_none() {
        buffer.vtx = Some(data);
    }
}

/// A copy of the index buffer has arrived. The first one of a cycle is kept;
/// a second delivery is dropped.
pub fn update_idx(buffer: &mut BufferData, data: Vec<u32>)
    ensures
        final(buffer)@ == old(buffer)@.with_idx(data@),
{
    if buffer.idx.is_none() {
        buffer.idx = Some(data);
    }
}

/// The counts have arrived. The first ones of a cycle are kept; a second
/// delivery is dropped.
pub fn update_counts(buffer: &mut BufferData, data: MeshCounts)
    ensures
        final(buffer)@ == old(buffer)@.with_counts(data),
{
    if buffer.counts.is_none() {
        buffer.counts = Some(data);
    }
}

/// The mesh as plain values, where `None` stands for a mesh that does not exist.
pub open spec fn target_view(mesh: Option<Mesh>) -> Option<MeshView> {
    match mesh {
        Some(m) => Some(m@),
        None => None,
    }
}

/// Tries to commit the held results to the mesh. Does nothing unless all
/// three results are there. If they are, they are taken out, so that no later
/// attempt of the same cycle can commit them again; the buffers are cut to
/// the counts, and positions, texture coordinates and indices of the mesh are
/// replaced together. `mesh` is `None` when the mesh does not exist; the
/// results are then dropped and the mesh stays absent.
pub fn attempt_mesh_upload(buffer: &mut BufferData, mesh: &mut Option<Mesh>) -> (outcome:
    UploadOutcome)
    ensures
        (final(buffer)@, target_view(*final(mesh)), outcome) == attempt(
            old(buffer)@,
            target_view(*old(mesh)),
        ),
{
    if buffer.vtx.is_none() || buffer.idx.is_none() || buffer.counts.is_none() {
        return UploadOutcome::Incomplete;
    }
    let mut vtx = buffer.vtx.take().unwrap();
    let mut idx = buffer.idx.take().unwrap();
    let counts = buffer.counts.take().unwrap();
    let ghost raw_vtx = vtx@;
    let ghost raw_idx = idx@;

    vtx.resize(counts.vtx as usize, VertexInfo::default());
    idx.resize(counts.idx as usize, 0);
    proof {
        assert(vtx@ =~= resized(raw_vtx, counts.vtx as nat, zero_vertex()));
        assert(idx@ =~= resized(raw_idx, counts.idx as nat, 0u32));
    }

    let mut vtx_new: Vec<[u32; 3]> = Vec::new();
    let mut uv: Vec<[u32; 2]> = Vec::new();
    let mut i: usize = 0;
    while i < vtx.len()
        invariant
            i <= vtx@.len(),
            vtx_new@.len() == i,
            uv@.len() == i,
            forall|j: int| 0 <= j < i ==> vtx_new@[j] == vtx@[j].pos,
            forall|j: int| 0 <= j < i ==> uv@[j] == [0u32, 0u32],
        decreases vtx@.len() - i,
    {
        vtx_new.push(vtx[i].pos);
        uv.push([0u32, 0u32]);
        i += 1;
    }

    if mesh.is_none() {
        return UploadOutcome::MissingMeshTarget;
    }
    *mesh = Some(Mesh { positions: vtx_new, uvs: uv, indices: idx });
    proof {
        let want = committed_mesh(raw_vtx, raw_idx, counts);
        assert(mesh->0@.positions =~= want.positions);
        assert(mesh->0@.uvs =~= want.uvs);
    }
    UploadOutcome::Committed
}

/// One delivery from the device.
pub enum Delivery {
    Vtx(Seq<VertexInfo>),
    Idx(Seq<u32>),
    Counts(MeshCounts),
}

/// What one delivery does: the result is stored if its slot is empty, and a
/// commit is attempted.
pub open spec fn deliver(held: BufferDataView, mesh: Option<MeshView>, delivery: Delivery) -> (
    BufferDataView,
    Option<MeshView>,
    UploadOutcome,
) {
    match delivery {
        Delivery::Vtx(data) => attempt(held.with_vtx(data), mesh),
        Delivery::Idx(data) => attempt(held.with_idx(data), mesh),
        Delivery::Counts(data) => attempt(held.with_counts(data), mesh),
    }
}

/// An attempt to commit while one or two results are missing changes neither
/// the mesh nor the held results.
pub proof fn lemma_incomplete_attempt_changes_nothing(held: BufferDataView, mesh: Option<MeshView>)
    requires
        held.filled() < 3,
    ensures
        attempt(held, mesh) == (held, mesh, UploadOutcome::Incomplete),
{
}

/// An attempt to commit with all three results replaces the mesh and empties
/// the slots, so that an attempt that follows it changes nothing: complete
/// results are committed exactly once.
pub proof fn lemma_complete_attempt_commits_once(held: BufferDataView, mesh: MeshView)
    requires
        held.filled() == 3,
    ensures
        attempt(held, Some(mesh)) == (
            BufferDataView::empty(),
            Some(committed_mesh(held.vtx->0, held.idx->0, held.counts->0)),
            UploadOutcome::Committed,
        ),
        attempt(attempt(held, Some(mesh)).0, attempt(held, Some(mesh)).1) == (
            attempt(held, Some(mesh)).0,
            attempt(held, Some(mesh)).1,
            UploadOutcome::Incomplete,
        ),
{
}

/// A result that arrives a second time in a cycle is dropped: the first write wins.
pub proof fn lemma_first_write_wins(
    held: BufferDataView,
    vtx: Seq<VertexInfo>,
    idx: Seq<u32>,
    counts: MeshCounts,
)
    ensures
        held.vtx is Some ==> held.with_vtx(vtx) == held,
        held.idx is Some ==> held.with_idx(idx) == held,
        held.counts is Some ==> held.with_counts(counts) == held,
        held.with_vtx(vtx).vtx is Some,
        held.with_idx(idx).idx is Some,
        held.with_counts(counts).counts is Some,
{
}

/// Whether the three deliveries are one of each kind, in whatever order.
pub open spec fn one_of_each(a: Delivery, b: Delivery, c: Delivery) -> bool {
    &&& a is Vtx || b is Vtx || c is Vtx
    &&& a is Idx || b is Idx || c is Idx
    &&& a is Counts || b is Counts || c is Counts
}

/// The vertex buffer among three deliveries that are one of each kind.
pub open spec fn vtx_of(a: Delivery, b: Delivery, c: Delivery) -> Seq<VertexInfo> {
    if a is Vtx {
        a->Vtx_0
    } else if b is Vtx {
        b->Vtx_0
    } else {
        c->Vtx_0
    }
}

/// The index buffer among three deliveries that are one of each kind.
pub open spec fn idx_of(a: Delivery, b: Delivery, c: Delivery) -> Seq<u32> {
    if a is Idx {
        a->Idx_0
    } else if b is Idx {
        b->Idx_0
    } else {
        c->Idx_0
    }
}

/// The counts among three deliveries that are one of each kind.
pub open spec fn counts_of(a: Delivery, b: Delivery, c: Delivery) -> MeshCounts {
    if a is Counts {
        a->Counts_0
    } else if b is Counts {
        b->Counts_0
    } else {
        c->Counts_0
    }
}

/// The join of one cycle: when the three results arrive in any order, with a
/// commit attempted after each arrival, the first two attempts leave the mesh
/// as it was, the third replaces it by the mesh of the three results and
/// leaves the slots empty, and one more attempt after that changes nothing.
pub proof fn lemma_join_in_any_order(mesh: MeshView, a: Delivery, b: Delivery, c: Delivery)
    requires
        one_of_each(a, b, c),
    ensures
        ({
            let first = deliver(BufferDataView::empty(), Some(mesh), a);
            let second = deliver(first.0, first.1, b);
            let third = deliver(second.0, second.1, c);
            let again = attempt(third.0, third.1);
            &&& first.1 == Some(mesh) && first.2 == UploadOutcome::Incomplete
            &&& second.1 == Some(mesh) && second.2 == UploadOutcome::Incomplete
            &&& third.2 == UploadOutcome::Committed
            &&& third.0 == BufferDataView::empty()
            &&& third.1 == Some(
                committed_mesh(vtx_of(a, b, c), idx_of(a, b, c), counts_of(a, b, c)),
            )
            &&& again == (third.0, third.1, UploadOutcome::Incomplete)
        }),
{
}

/// Cutting to the counts: if the device reports `k` vertices and the vertex
/// buffer holds at least `k` records, the committed mesh has exactly `k`
/// positions, the positions of the first `k` records in order, and exactly
/// `k` texture coordinates; and it has exactly as many indices as reported.
pub proof fn lemma_truncation(vtx: Seq<VertexInfo>, idx: Seq<u32>, counts: MeshCounts)
    requires
        counts.vtx <= vtx.len(),
    ensures
        committed_mesh(vtx, idx, counts).positions.len() == counts.vtx,
        committed_mesh(vtx, idx, counts).uvs.len() == counts.vtx,
        committed_mesh(vtx, idx, counts).indices.len() == counts.idx,
        forall|i: int|
            0 <= i < counts.vtx ==> committed_mesh(vtx, idx, counts).positions[i] == vtx[i].pos,
        counts.idx <= idx.len() ==> committed_mesh(vtx, idx, counts).indices == idx.take(
            counts.idx as int,
        ),
{
}

/// The indices of the committed mesh are the device's own, passed on as they
/// were written. If the index buffer holds at least `counts.idx` indices and
/// the first `counts.idx` of them all name vertices below `counts.vtx`, then
/// so does every index of the committed mesh.
pub proof fn lemma_indices_in_range(vtx: Seq<VertexInfo>, idx: Seq<u32>, counts: MeshCounts)
    requires
        counts.idx <= idx.len(),
        forall|i: int| 0 <= i < counts.idx ==> idx[i] < counts.vtx,
    ensures
        forall|i: int|
            0 <= i < committed_mesh(vtx, idx, counts).indices.len() ==> committed_mesh(
                vtx,
                idx,
                counts,
            ).indices[i] < counts.vtx,
{
}

} // verus!
