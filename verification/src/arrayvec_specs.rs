//! What the verifier is told about `arrayvec::ArrayVec`, the fixed-capacity
//! vector that holds the triangles of a table entry. Nothing here is proved:
//! each contract restates what the crate's source does.

use arrayvec::ArrayVec;
use vstd::prelude::*;

verus! {

/// `arrayvec::ArrayVec<T, CAP>`: a vector of at most `CAP` elements stored
/// inline. Its fields are hidden from the verifier.
#[verifier::external_type_specification]
#[verifier::external_body]
#[verifier::reject_recursive_types(T)]
pub struct ExArrayVec<T, const CAP: usize>(ArrayVec<T, CAP>);

/// The edge triples that a vector of triangles holds, first to last.
pub uninterp spec fn triangle_list(v: ArrayVec<[u8; 3], 5>) -> Seq<[u8; 3]>;

/// `ArrayVec::new`: a vector that holds nothing.
#[verifier::external_body]
pub(crate) fn tris_new() -> (v: ArrayVec<[u8; 3], 5>)
    ensures
        triangle_list(v) == Seq::<[u8; 3]>::empty(),
{
    ArrayVec::new()
}

/// `ArrayVec::push`: appends `tri` after the elements already held. The
/// method panics on a full vector, so there must be room.
#[verifier::external_body]
pub(crate) fn tris_push(v: &mut ArrayVec<[u8; 3], 5>, tri: [u8; 3])
    requires
        triangle_list(*old(v)).len() < 5,
    ensures
        triangle_list(*final(v)) == triangle_list(*old(v)).push(tri),
{
    v.push(tri)
}

/// `ArrayVec::len`: the number of elements held, never more than the capacity.
#[verifier::external_body]
pub(crate) fn tris_len(v: &ArrayVec<[u8; 3], 5>) -> (len: usize)
    ensures
        len == triangle_list(*v).len(),
        len <= 5,
{
    v.len()
}

/// Indexing through `Deref<Target = [T]>`: the element at position `i`. The
/// slice index panics past the end, so `i` must be below the length.
#[verifier::external_body]
pub(crate) fn tris_get(v: &ArrayVec<[u8; 3], 5>, i: usize) -> (tri: [u8; 3])
    requires
        i < triangle_list(*v).len(),
    ensures
        tri == triangle_list(*v)[i as int],
{
    v[i]
}

} // verus!
