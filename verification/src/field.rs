//! The density field: a cubic grid of samples addressed by integer coordinates.
//!
//! Samples are `f32` values held as their IEEE-754 bit patterns, so that the
//! sign test the extraction rests on is plain integer arithmetic.

use vstd::prelude::*;

verus! {

/// Cells per axis of the default field.
pub const N: usize = 5;

/// Largest supported number of cells per axis. It is the largest `n` for which
/// the worst-case index count `3 * n^3` still fits a 32-bit counter.
pub const MAX_N: usize = 1127;

/// An integer grid coordinate. It names a grid point, and also the cell whose
/// lowest corner is that point.
#[derive(Clone, Copy, Debug, PartialEq, Eq, Structural)]
pub struct GridPoint {
    pub x: u32,
    pub y: u32,
    pub z: u32,
}

/// Whether the `f32` with bit pattern `bits` compares greater than zero:
/// the sign bit is clear, the value is not zero and it is not a NaN.
pub open spec fn spec_is_inside(bits: u32) -> bool {
    0 < bits <= 0x7f80_0000
}

/// The inside test on a sample: strictly positive. Zero, negative values and
/// NaN are outside.
#[verifier::when_used_as_spec(spec_is_inside)]
pub fn is_inside(bits: u32) -> (inside: bool)
    ensures
        inside == spec_is_inside(bits),
{
    0 < bits && bits <= 0x7f80_0000
}

/// Position of the sample at `p` in the flat sample array of a field with `n`
/// cells per axis.
pub open spec fn flat_index(n: nat, p: GridPoint) -> int {
    (p.x * (n + 1) + p.y) * (n + 1) + p.z
}

/// `flat_index` stays inside the `(n + 1)^3` samples and is injective on the
/// points of the grid.
pub proof fn lemma_flat_index(n: nat, p: GridPoint, q: GridPoint)
    requires
        p.x <= n,
        p.y <= n,
        p.z <= n,
        q.x <= n,
        q.y <= n,
        q.z <= n,
    ensures
        0 <= flat_index(n, p) < grid_len(n),
        0 <= p.x * (n + 1) + p.y < (n + 1) * (n + 1),
        flat_index(n, p) == flat_index(n, q) ==> p == q,
{
    let s = (n + 1) as int;
    let a = p.x * s + p.y;
    let b = q.x * s + q.y;
    assert(a <= n * s + n) by (nonlinear_arith)
        requires
            a == p.x * s + p.y,
            0 <= p.x <= n,
            0 <= p.y <= n,
            s == n + 1,
    ;
    assert(n * s + n == s * s - 1) by (nonlinear_arith)
        requires
            s == n + 1,
    ;
    assert(a * s + p.z <= (s * s - 1) * s + n) by (nonlinear_arith)
        requires
            0 <= a <= s * s - 1,
            0 <= p.z <= n,
            s == n + 1,
    ;
    assert((s * s - 1) * s + n == s * s * s - 1) by (nonlinear_arith)
        requires
            s == n + 1,
    ;
    assert(0 <= a * s) by (nonlinear_arith)
        requires
            0 <= a,
            0 < s,
    ;
    if flat_index(n, p) == flat_index(n, q) {
        assert(a == b && p.z == q.z) by (nonlinear_arith)
            requires
                a * s + p.z == b * s + q.z,
                0 <= p.z < s,
                0 <= q.z < s,
        ;
        assert(p.x == q.x && p.y == q.y) by (nonlinear_arith)
            requires
                p.x * s + p.y == q.x * s + q.y,
                0 <= p.y < s,
                0 <= q.y < s,
        ;
    }
}

/// The number of grid points of a field with `n` cells per axis.
pub open spec fn grid_len(n: nat) -> nat {
    (n + 1) * (n + 1) * (n + 1)
}

/// Within the supported resolutions the number of grid points stays below `2^31`.
pub proof fn lemma_grid_len_bound(n: nat)
    requires
        n <= MAX_N,
    ensures
        (n + 1) * (n + 1) <= 1128 * 1128,
        grid_len(n) <= 1128 * 1128 * 1128,
{
    let s = (n + 1) as int;
    assert(s * s <= 1128 * 1128 && s * s * s <= 1128 * 1128 * 1128) by (nonlinear_arith)
        requires
            0 < s <= 1128,
    ;
}

/// Computes `flat_index`.
fn offset(n: usize, p: GridPoint) -> (i: usize)
    requires
        n <= MAX_N,
        p.x <= n,
        p.y <= n,
        p.z <= n,
    ensures
        i == flat_index(n as nat, p),
        i < grid_len(n as nat),
{
    proof {
        lemma_flat_index(n as nat, p, p);
        lemma_grid_len_bound(n as nat);
    }
    let s = n + 1;
    assert(p.x * s <= p.x * s + p.y) by (nonlinear_arith)
        requires
            0 <= p.y,
    ;
    let row = p.x as usize * s + p.y as usize;
    assert(row * s <= row * s + p.z) by (nonlinear_arith)
        requires
            0 <= p.z,
    ;
    row * s + p.z as usize
}

/// The mutable grid of density samples. A field with `n` cells per axis has
/// `(n + 1)^3` grid points, each coordinate ranging over `0..=n`.
pub struct DensityMap {
    n: usize,
    densities: Vec<u32>,
}

impl DensityMap {
    #[verifier::type_invariant]
    spec fn well_formed(self) -> bool {
        &&& self.n <= MAX_N
        &&& self.densities@.len() == grid_len(self.n as nat)
    }

    /// Cells per axis.
    pub closed spec fn size(&self) -> nat {
        self.n as nat
    }

    /// Whether `p` is a grid point of this field.
    pub open spec fn contains(&self, p: GridPoint) -> bool {
        p.x <= self.size() && p.y <= self.size() && p.z <= self.size()
    }

    /// The sample stored at `p`, as an `f32` bit pattern.
    pub closed spec fn sample(&self, p: GridPoint) -> u32 {
        self.densities@[flat_index(self.n as nat, p)]
    }

    /// Whether the sample at `p` is strictly positive.
    pub open spec fn inside(&self, p: GridPoint) -> bool {
        spec_is_inside(self.sample(p))
    }

    /// A field of `n` cells per axis with every sample `0.0`.
    pub fn new(n: usize) -> (map: DensityMap)
        requires
            n <= MAX_N,
        ensures
            map.size() == n,
            forall|p: GridPoint| map.contains(p) ==> map.sample(p) == 0,
    {
        proof {
            lemma_grid_len_bound(n as nat);
        }
        let s = n + 1;
        let len = s * s * s;
        let densities = vec![0u32; len];
        let map = DensityMap { n, densities };
        assert forall|p: GridPoint| map.contains(p) implies map.sample(p) == 0 by {
            lemma_flat_index(n as nat, p, p);
        }
        map
    }

    /// Cells per axis.
    pub fn n(&self) -> (n: usize)
        ensures
            n == self.size(),
            n <= MAX_N,
    {
        proof {
            use_type_invariant(self);
        }
        self.n
    }

    /// Reads the sample at `idx`.
    pub fn index(&self, idx: GridPoint) -> (sample: u32)
        requires
            self.contains(idx),
        ensures
            sample == self.sample(idx),
    {
        proof {
            use_type_invariant(self);
        }
        self.densities[offset(self.n, idx)]
    }

    /// A mutable reference to the sample at `idx`. Writing through it changes
    /// that sample and no other.
    pub fn index_mut(&mut self, idx: GridPoint) -> (sample: &mut u32)
        requires
            old(self).contains(idx),
        ensures
            *sample == old(self).sample(idx),
            final(self).size() == old(self).size(),
            final(self).sample(idx) == *final(sample),
            forall|p: GridPoint|
                old(self).contains(p) && p != idx ==> final(self).sample(p) == old(self).sample(p),
    {
        proof {
            use_type_invariant(&*self);
        }
        let i = offset(self.n, idx);
        proof {
            let n = self.n as nat;
            assert forall|p: GridPoint| old(self).contains(p) && p != idx implies 0
                <= #[trigger] flat_index(n, p) < grid_len(n) && flat_index(n, p) != i by {
                lemma_flat_index(n, p, idx);
            }
        }
        &mut self.densities[i]
    }
}

impl Default for DensityMap {
    /// The default field: `N` cells per axis, every sample `0.0`.
    fn default() -> (map: DensityMap)
        ensures
            map.size() == N,
            forall|p: GridPoint| map.contains(p) ==> map.sample(p) == 0,
    {
        DensityMap::new(N)
    }
}

} // verus!
