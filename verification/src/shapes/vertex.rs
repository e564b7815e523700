//! The vertex: a homogeneous position and an RGBA color, and its exact
//! byte layout in the GPU vertex buffer.

use vstd::prelude::*;

verus! {

/// A mesh vertex: homogeneous position and RGBA color.
///
/// Each scalar component is the 32-bit pattern of the host's
/// single-precision value. The library moves the patterns between
/// primitives, buffers and byte streams unchanged and never interprets
/// them numerically, so contracts over them are bit-exact.
#[derive(Clone, Copy, Debug, PartialEq)]
pub struct Vertex {
    /// `(x, y, z, w)` spatial components plus the homogeneous coordinate.
    pub position: (u32, u32, u32, u32),
    /// `(r, g, b, a)` color channels.
    pub color: (u32, u32, u32, u32),
}

/// The vertex `v` with its spatial components replaced by `p` and its
/// homogeneous coordinate and color kept.
pub open spec fn repositioned(v: Vertex, p: (u32, u32, u32)) -> Vertex {
    Vertex { position: (p.0, p.1, p.2, v.position.3), color: v.color }
}

impl Vertex {
    /// Replaces the spatial components `(x, y, z)` with host-computed
    /// values. A rigid rotation touches only these three: the homogeneous
    /// coordinate `w` and the color pass through unchanged.
    pub fn with_spatial(self, p: (u32, u32, u32)) -> (r: Self)
        ensures
            r == repositioned(self, p),
    {
        Vertex { position: (p.0, p.1, p.2, self.position.3), color: self.color }
    }
}

/// The four bytes of a 32-bit word, least significant first.
pub open spec fn le_bytes32(x: u32) -> Seq<u8> {
    seq![
        (x & 0xff) as u8,
        ((x >> 8) & 0xff) as u8,
        ((x >> 16) & 0xff) as u8,
        ((x >> 24) & 0xff) as u8,
    ]
}

/// The 32 bytes a vertex occupies in the vertex buffer: the four position
/// words at offset 0, the four color words at offset 16, each word little
/// endian.
pub open spec fn vertex_bytes(v: Vertex) -> Seq<u8> {
    le_bytes32(v.position.0) + le_bytes32(v.position.1) + le_bytes32(v.position.2)
        + le_bytes32(v.position.3) + le_bytes32(v.color.0) + le_bytes32(v.color.1)
        + le_bytes32(v.color.2) + le_bytes32(v.color.3)
}

/// The whole vertex buffer: the 32-byte images of the vertices, in order.
pub open spec fn mesh_bytes(vs: Seq<Vertex>) -> Seq<u8>
    decreases vs.len(),
{
    if vs.len() == 0 {
        Seq::empty()
    } else {
        vertex_bytes(vs[0]) + mesh_bytes(vs.drop_first())
    }
}

/// Splitting the buffer image after any prefix of the vertices splits it
/// at a 32-byte multiple.
pub proof fn lemma_mesh_bytes_take(vs: Seq<Vertex>, i: int)
    requires
        0 <= i < vs.len(),
    ensures
        mesh_bytes(vs.take(i + 1)) == mesh_bytes(vs.take(i)) + vertex_bytes(vs[i]),
    decreases i,
{
    if i == 0 {
        assert(vs.take(1).drop_first() =~= vs.take(0));
        assert(mesh_bytes(vs.take(0)) =~= Seq::<u8>::empty());
        assert(mesh_bytes(vs.take(1)) =~= vertex_bytes(vs[0]));
        assert(mesh_bytes(vs.take(0)) + vertex_bytes(vs[0]) =~= vertex_bytes(vs[0]));
    } else {
        let tail = vs.drop_first();
        lemma_mesh_bytes_take(tail, i - 1);
        assert(vs.take(i + 1).drop_first() =~= tail.take(i));
        assert(vs.take(i).drop_first() =~= tail.take(i - 1));
        assert(vs.take(i + 1)[0] == vs[0]);
        assert(vs.take(i)[0] == vs[0]);
        assert(tail[i - 1] == vs[i]);
        assert(mesh_bytes(vs.take(i + 1)) == vertex_bytes(vs[0]) + mesh_bytes(tail.take(i)));
        assert(mesh_bytes(vs.take(i)) == vertex_bytes(vs[0]) + mesh_bytes(tail.take(i - 1)));
        assert(mesh_bytes(vs.take(i)) + vertex_bytes(vs[i]) =~= vertex_bytes(vs[0]) + (
        mesh_bytes(tail.take(i - 1)) + vertex_bytes(tail[i - 1])));
    }
}

/// Every vertex occupies exactly 32 bytes in the buffer image.
pub proof fn lemma_mesh_bytes_len(vs: Seq<Vertex>)
    ensures
        mesh_bytes(vs).len() == 32 * vs.len(),
    decreases vs.len(),
{
    if vs.len() > 0 {
        lemma_mesh_bytes_len(vs.drop_first());
    }
}

/// Appends the four bytes of `x`, least significant first.
fn push_word_le(out: &mut Vec<u8>, x: u32)
    ensures
        final(out)@ == old(out)@ + le_bytes32(x),
{
    out.push((x & 0xff) as u8);
    out.push(((x >> 8) & 0xff) as u8);
    out.push(((x >> 16) & 0xff) as u8);
    out.push(((x >> 24) & 0xff) as u8);
    proof {
        assert(out@ =~= old(out)@ + le_bytes32(x));
    }
}

/// Appends the 32-byte buffer image of one vertex.
fn push_vertex_bytes(out: &mut Vec<u8>, v: &Vertex)
    ensures
        final(out)@ == old(out)@ + vertex_bytes(*v),
{
    push_word_le(out, v.position.0);
    push_word_le(out, v.position.1);
    push_word_le(out, v.position.2);
    push_word_le(out, v.position.3);
    push_word_le(out, v.color.0);
    push_word_le(out, v.color.1);
    push_word_le(out, v.color.2);
    push_word_le(out, v.color.3);
    proof {
        assert(out@ =~= old(out)@ + vertex_bytes(*v));
    }
}

/// Serializes a vertex sequence into the exact byte image the GPU
/// pipeline reads: 32 bytes per vertex, position words first, color words
/// at offset 16, every word little endian, vertices in order.
pub fn vertices_to_bytes(vs: &Vec<Vertex>) -> (r: Vec<u8>)
    ensures
        r@ == mesh_bytes(vs@),
        r@.len() == 32 * vs@.len(),
{
    let mut out: Vec<u8> = Vec::new();
    let n = vs.len();
    let mut i: usize = 0;
    proof {
        assert(vs@.take(0) =~= Seq::<Vertex>::empty());
    }
    while i < n
        invariant
            0 <= i <= n,
            n == vs@.len(),
            out@ == mesh_bytes(vs@.take(i as int)),
        decreases n - i,
    {
        push_vertex_bytes(&mut out, &vs[i]);
        proof {
            lemma_mesh_bytes_take(vs@, i as int);
        }
        i = i + 1;
    }
    proof {
        assert(vs@.take(n as int) =~= vs@);
        lemma_mesh_bytes_len(vs@);
    }
    out
}

} // verus!
