//! The byte payloads of the vertex and the index buffer.

use vstd::prelude::*;
use crate::draw::{index_total, vertex_total, DrawIdx, DrawList, DrawVert, VERTEX_SIZE};

verus! {

/// The bytes of a run of vertex records, record after record.
pub open spec fn vertex_bytes(vertices: Seq<DrawVert>) -> Seq<u8> {
    Seq::new(
        (VERTEX_SIZE * vertices.len()) as nat,
        |i: int| vertices[i / (VERTEX_SIZE as int)]@[i % (VERTEX_SIZE as int)],
    )
}

/// The bytes of a run of indices, low byte first.
pub open spec fn little_endian_bytes(indices: Seq<DrawIdx>) -> Seq<u8> {
    Seq::new(
        2 * indices.len(),
        |i: int|
            if i % 2 == 0 {
                (indices[i / 2] % 256) as u8
            } else {
                (indices[i / 2] / 256) as u8
            },
    )
}

/// The bytes of a run of indices, high byte first.
pub open spec fn big_endian_bytes(indices: Seq<DrawIdx>) -> Seq<u8> {
    Seq::new(
        2 * indices.len(),
        |i: int|
            if i % 2 == 0 {
                (indices[i / 2] / 256) as u8
            } else {
                (indices[i / 2] % 256) as u8
            },
    )
}

/// Whether `bytes` are the indices as the machine lays them out in memory:
/// in one of the two byte orders, the same for every index.
pub open spec fn is_native_bytes(bytes: Seq<u8>, indices: Seq<DrawIdx>) -> bool {
    bytes == little_endian_bytes(indices) || bytes == big_endian_bytes(indices)
}

/// The vertex records of the first `n` draw lists, list after list.
pub open spec fn all_vertices(lists: Seq<DrawList>, n: int) -> Seq<DrawVert>
    decreases n,
{
    if n <= 0 {
        Seq::empty()
    } else {
        all_vertices(lists, n - 1) + lists[n - 1].vertices()
    }
}

/// The indices of the first `n` draw lists, list after list.
pub open spec fn all_indices(lists: Seq<DrawList>, n: int) -> Seq<DrawIdx>
    decreases n,
{
    if n <= 0 {
        Seq::empty()
    } else {
        all_indices(lists, n - 1) + lists[n - 1].indices()
    }
}

/// The bytes of two runs of vertex records, one after the other, are the
/// bytes of the first run and then those of the second.
pub proof fn lemma_vertex_bytes_concat(a: Seq<DrawVert>, b: Seq<DrawVert>)
    ensures
        vertex_bytes(a + b) == vertex_bytes(a) + vertex_bytes(b),
{
    let left = vertex_bytes(a + b);
    let right = vertex_bytes(a) + vertex_bytes(b);
    assert(left.len() == right.len());
    assert forall|i: int| 0 <= i < left.len() implies left[i] == right[i] by {
        let size = VERTEX_SIZE as int;
        if i < size * a.len() {
            assert(i / size < a.len());
        } else {
            let j = i - size * a.len();
            assert(j / size == i / size - a.len());
            assert(j % size == i % size);
        }
    }
    assert(left =~= right);
}

/// The first `n` lists hold as many vertex records and indices as their
/// totals say.
pub proof fn lemma_all_lengths(lists: Seq<DrawList>, n: int)
    ensures
        all_vertices(lists, n).len() == vertex_total(lists, n),
        all_indices(lists, n).len() == index_total(lists, n),
    decreases n,
{
    if n > 0 {
        lemma_all_lengths(lists, n - 1);
    }
}

/// `bytemuck::cast_slice` from vertex records to bytes: the same memory read
/// as bytes, so the records' bytes in order.
#[verifier::external_body]
pub(crate) fn cast_vertices<'a>(vertices: &'a [DrawVert]) -> (bytes: &'a [u8])
    ensures
        bytes@ == vertex_bytes(vertices@),
{
    bytemuck::cast_slice(vertices)
}

/// `bytemuck::cast_slice` from 16-bit indices to bytes: the same memory read
/// as bytes, so two bytes for each index in the machine's byte order.
#[verifier::external_body]
pub(crate) fn cast_indices<'a>(indices: &'a [DrawIdx]) -> (bytes: &'a [u8])
    ensures
        is_native_bytes(bytes@, indices@),
{
    bytemuck::cast_slice(indices)
}

} // verus!
