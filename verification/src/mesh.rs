//! What the renderer reads of a mesh, and where each mesh falls in the shared
//! buffers.
use crate::bytes::{cast_words, lemma_native_bytes, native_bytes};
use vstd::prelude::*;
use vstd::slice::slice_to_vec;

verus! {

/// The bytes of one vertex: a position of two floats at offset 0, then a
/// color of four floats.
pub const VERTEX_STRIDE: usize = 24;

/// The offset of the color within a vertex.
pub const COLOR_OFFSET: usize = 8;

/// The bytes of one index.
pub const INDEX_STRIDE: usize = 4;

/// A triangle list. The vertex attributes are floating point and stay with
/// the caller; the mesh records how many vertices there are, and holds the
/// indices into them.
#[derive(Debug)]
pub struct Mesh {
    pub vertex_count: usize,
    pub indices: Vec<u32>,
}

impl Mesh {
    /// A mesh with no vertex bytes or no index bytes has nothing to upload.
    pub open spec fn is_degenerate(&self) -> bool {
        self.vertex_count == 0 || self.indices@.len() == 0
    }

    /// The indices as the bytes that go into the index buffer.
    pub fn index_bytes(&self) -> (bytes: Vec<u8>)
        ensures
            native_bytes(self.indices@, bytes@),
            bytes@.len() == INDEX_STRIDE * self.indices@.len(),
    {
        let raw = cast_words(self.indices.as_slice());
        proof {
            lemma_native_bytes(self.indices@, raw@);
        }
        slice_to_vec(raw)
    }
}

/// The vertices of the first `n` meshes together: the vertex cursor once `n`
/// meshes have been processed.
pub open spec fn vertices_before(meshes: Seq<Mesh>, n: int) -> nat
    decreases n,
{
    if n <= 0 {
        0
    } else {
        vertices_before(meshes, n - 1) + meshes[n - 1].vertex_count as nat
    }
}

/// The indices of the first `n` meshes together: the index cursor once `n`
/// meshes have been processed.
pub open spec fn indices_before(meshes: Seq<Mesh>, n: int) -> nat
    decreases n,
{
    if n <= 0 {
        0
    } else {
        indices_before(meshes, n - 1) + meshes[n - 1].indices@.len()
    }
}

/// The vertices of all meshes of a frame.
pub open spec fn total_vertices(meshes: Seq<Mesh>) -> nat {
    vertices_before(meshes, meshes.len() as int)
}

/// The indices of all meshes of a frame.
pub open spec fn total_indices(meshes: Seq<Mesh>) -> nat {
    indices_before(meshes, meshes.len() as int)
}

/// The most vertices a frame may hold: the base vertex of a draw is a signed
/// 32-bit number.
pub const MAX_VERTICES: usize = 0x7fff_ffff;

/// The most indices a frame may hold: index ranges are 32-bit.
pub const MAX_INDICES: usize = 0xffff_ffff;

/// The most meshes a frame may hold: the byte offset of the last uniform
/// record is a 32-bit number.
pub const MAX_MESHES: usize = 0x100_0000;

/// The frame can be addressed by the 32-bit parameters of a draw call.
pub open spec fn frame_fits(meshes: Seq<Mesh>) -> bool {
    &&& meshes.len() <= MAX_MESHES
    &&& total_vertices(meshes) <= MAX_VERTICES
    &&& total_indices(meshes) <= MAX_INDICES
}

/// The cursors only move forward.
pub proof fn lemma_cursors_monotone(meshes: Seq<Mesh>, a: int, b: int)
    requires
        0 <= a <= b <= meshes.len(),
    ensures
        vertices_before(meshes, a) <= vertices_before(meshes, b),
        indices_before(meshes, a) <= indices_before(meshes, b),
    decreases b - a,
{
    if a < b {
        lemma_cursors_monotone(meshes, a, b - 1);
    }
}

/// Each mesh takes the range of the shared buffers that starts where the
/// mesh before it ended: the cursors start at zero, advance by exactly the
/// size of each mesh, and end at the frame's totals, so that the ranges of
/// two meshes never overlap and no element between them is left out.
pub proof fn lemma_cursor_accounting(meshes: Seq<Mesh>, i: int, j: int)
    requires
        0 <= i < j <= meshes.len(),
    ensures
        vertices_before(meshes, 0) == 0,
        indices_before(meshes, 0) == 0,
        vertices_before(meshes, i + 1) == vertices_before(meshes, i) + meshes[i].vertex_count,
        indices_before(meshes, i + 1) == indices_before(meshes, i) + meshes[i].indices@.len(),
        vertices_before(meshes, i) + meshes[i].vertex_count <= vertices_before(meshes, j),
        indices_before(meshes, i) + meshes[i].indices@.len() <= indices_before(meshes, j),
        vertices_before(meshes, meshes.len() as int) == total_vertices(meshes),
        indices_before(meshes, meshes.len() as int) == total_indices(meshes),
        vertices_before(meshes, j) <= total_vertices(meshes),
        indices_before(meshes, j) <= total_indices(meshes),
{
    lemma_cursors_monotone(meshes, i + 1, j);
    lemma_cursors_monotone(meshes, j, meshes.len() as int);
}

/// The vertex and index totals of a frame, or `None` where the frame holds
/// more than a draw call can address.
pub fn checked_totals(meshes: &Vec<Mesh>) -> (totals: Option<(usize, usize)>)
    ensures
        totals.is_some() <==> total_vertices(meshes@) <= MAX_VERTICES && total_indices(meshes@)
            <= MAX_INDICES,
        totals.is_some() ==> totals.unwrap().0 == total_vertices(meshes@) && totals.unwrap().1
            == total_indices(meshes@),
{
    let mut vertices: usize = 0;
    let mut indices: usize = 0;
    let mut i: usize = 0;
    while i < meshes.len()
        invariant
            i <= meshes.len(),
            vertices == vertices_before(meshes@, i as int),
            indices == indices_before(meshes@, i as int),
            vertices <= MAX_VERTICES,
            indices <= MAX_INDICES,
        decreases meshes.len() - i,
    {
        let mesh = &meshes[i];
        proof {
            lemma_cursors_monotone(meshes@, i + 1, meshes.len() as int);
        }
        if mesh.vertex_count > MAX_VERTICES - vertices || mesh.indices.len() > MAX_INDICES - indices {
            return None;
        }
        vertices += mesh.vertex_count;
        indices += mesh.indices.len();
        i += 1;
    }
    Some((vertices, indices))
}

/// Whether the frame can be addressed by the 32-bit parameters of a draw
/// call.
pub fn fits(meshes: &Vec<Mesh>) -> (fits: bool)
    ensures
        fits == frame_fits(meshes@),
{
    meshes.len() <= MAX_MESHES && checked_totals(meshes).is_some()
}

} // verus!
