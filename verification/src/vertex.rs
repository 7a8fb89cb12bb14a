//! Quad vertices as the device receives them.
//!
//! The renderer never computes with vertex data: it stores each 32-bit
//! scalar and later hands it over byte by byte. A scalar that the shaders
//! read as a single-precision number is therefore held as the `u32` of its
//! IEEE-754 bits.

use vstd::prelude::*;

verus! {

/// Bits of the single-precision number 0.
pub const ZERO: u32 = 0;

/// Bits of the single-precision number 1.
pub const ONE: u32 = 0x3f80_0000;

/// Bits of the single-precision number 1/2.
pub const HALF: u32 = 0x3f00_0000;

/// Bits of the single-precision number -1/2.
pub const MINUS_HALF: u32 = 0xbf00_0000;

/// Vertices per quad.
pub const QUAD_VERTEX_COUNT: usize = 4;

/// Indices per quad: two triangles.
pub const QUAD_INDEX_COUNT: usize = 6;

/// Bytes one vertex takes on the device.
pub const VERTEX_SIZE: usize = 48;

/// A point in space, each coordinate as single-precision bits.
#[derive(Clone, Copy, Debug, PartialEq, Eq)]
pub struct Position {
    pub x: u32,
    pub y: u32,
    pub z: u32,
}

/// A colour, each channel as single-precision bits.
#[derive(Clone, Copy, Debug, PartialEq, Eq)]
pub struct Color {
    pub r: u32,
    pub g: u32,
    pub b: u32,
    pub a: u32,
}

/// A texture coordinate, each axis as single-precision bits.
#[derive(Clone, Copy, Debug, PartialEq, Eq)]
pub struct TexCoord {
    pub u: u32,
    pub v: u32,
}

/// One corner of a quad.
#[derive(Clone, Copy, Debug, PartialEq, Eq)]
pub struct QuadVertex {
    pub position: Position,
    pub color: Color,
    pub tex_coord: TexCoord,
    pub tex_index: u32,
    pub tiling_factor: u32,
    pub entity_id: i32,
}

/// The vertex that fills unused scratch space.
pub open spec fn blank_vertex() -> QuadVertex {
    QuadVertex {
        position: Position { x: ZERO, y: ZERO, z: ZERO },
        color: Color { r: ZERO, g: ZERO, b: ZERO, a: ZERO },
        tex_coord: TexCoord { u: ZERO, v: ZERO },
        tex_index: ZERO,
        tiling_factor: ONE,
        entity_id: -1i32,
    }
}

impl QuadVertex {
    pub fn new() -> (r: Self)
        ensures
            r == blank_vertex(),
    {
        Self {
            position: Position { x: ZERO, y: ZERO, z: ZERO },
            color: Color { r: ZERO, g: ZERO, b: ZERO, a: ZERO },
            tex_coord: TexCoord { u: ZERO, v: ZERO },
            tex_index: ZERO,
            tiling_factor: ONE,
            entity_id: -1,
        }
    }
}

/// Corner `i` of the unit quad centred on the origin, counter-clockwise
/// from the lower left.
pub open spec fn unit_corner(i: int) -> Position {
    Position {
        x: if i == 1 || i == 2 {
            HALF
        } else {
            MINUS_HALF
        },
        y: if i == 2 || i == 3 {
            HALF
        } else {
            MINUS_HALF
        },
        z: ZERO,
    }
}

/// Texture coordinate of corner `i` of a quad.
pub open spec fn corner_tex_coord(i: int) -> TexCoord {
    TexCoord {
        u: if i == 1 || i == 2 {
            ONE
        } else {
            ZERO
        },
        v: if i == 2 || i == 3 {
            ONE
        } else {
            ZERO
        },
    }
}

/// The four corners of the unit quad, which a caller's transform is
/// applied to.
pub fn quad_vertex_positions() -> (r: [Position; 4])
    ensures
        forall|i: int| 0 <= i < 4 ==> r[i] == unit_corner(i),
{
    [
        Position { x: MINUS_HALF, y: MINUS_HALF, z: ZERO },
        Position { x: HALF, y: MINUS_HALF, z: ZERO },
        Position { x: HALF, y: HALF, z: ZERO },
        Position { x: MINUS_HALF, y: HALF, z: ZERO },
    ]
}

/// The texture coordinates of the four corners of a quad.
pub fn texture_coords() -> (r: [TexCoord; 4])
    ensures
        forall|i: int| 0 <= i < 4 ==> r[i] == corner_tex_coord(i),
{
    [
        TexCoord { u: ZERO, v: ZERO },
        TexCoord { u: ONE, v: ZERO },
        TexCoord { u: ONE, v: ONE },
        TexCoord { u: ZERO, v: ONE },
    ]
}

/// Index `i` of the index buffer: quad `i / 6` uses its four vertices in
/// the order 0, 1, 2, 2, 3, 0.
pub open spec fn quad_index(i: int) -> int {
    let corner = i % 6;
    4 * (i / 6) + if corner == 0 || corner == 5 {
        0int
    } else if corner == 1 {
        1
    } else if corner == 2 || corner == 3 {
        2
    } else {
        3
    }
}

/// The index buffer for `quads` quads.
pub fn quad_indices(quads: usize) -> (r: Vec<u32>)
    requires
        4 * quads <= u32::MAX,
    ensures
        r@.len() == 6 * quads,
        forall|i: int| 0 <= i < 6 * quads ==> r@[i] == quad_index(i),
{
    let mut indices: Vec<u32> = Vec::new();
    let mut offset: u32 = 0;
    let mut q: usize = 0;
    while q < quads
        invariant
            0 <= q <= quads,
            4 * quads <= u32::MAX,
            offset == 4 * q,
            indices@.len() == 6 * q,
            forall|i: int| 0 <= i < 6 * q ==> indices@[i] == quad_index(i),
        decreases quads - q,
    {
        indices.push(offset);
        indices.push(offset + 1);
        indices.push(offset + 2);
        indices.push(offset + 2);
        indices.push(offset + 3);
        indices.push(offset);
        offset = offset + 4;
        q = q + 1;
    }
    indices
}

/// The four bytes of a word, least significant first.
pub open spec fn word_bytes(w: u32) -> Seq<u8> {
    seq![
        (w % 256) as u8,
        (w / 256 % 256) as u8,
        (w / 65536 % 256) as u8,
        (w / 16777216) as u8,
    ]
}

/// A signed word as the unsigned word with the same two's-complement bits.
pub open spec fn unsigned_bits(v: i32) -> u32 {
    if v >= 0 {
        v as u32
    } else {
        (v + 0x1_0000_0000) as u32
    }
}

/// The bytes of the words in order.
pub open spec fn words_bytes(words: Seq<u32>) -> Seq<u8>
    decreases words.len(),
{
    if words.len() == 0 {
        Seq::empty()
    } else {
        words_bytes(words.drop_last()) + word_bytes(words.last())
    }
}

/// The bytes of a vertex in device order: position, colour, texture
/// coordinate, texture index, tiling factor, entity id.
pub open spec fn vertex_bytes(v: QuadVertex) -> Seq<u8> {
    word_bytes(v.position.x) + word_bytes(v.position.y) + word_bytes(v.position.z) + word_bytes(
        v.color.r,
    ) + word_bytes(v.color.g) + word_bytes(v.color.b) + word_bytes(v.color.a) + word_bytes(
        v.tex_coord.u,
    ) + word_bytes(v.tex_coord.v) + word_bytes(v.tex_index) + word_bytes(v.tiling_factor)
        + word_bytes(unsigned_bits(v.entity_id))
}

/// The bytes of the vertices in order, `VERTEX_SIZE` each.
pub open spec fn vertices_bytes(vertices: Seq<QuadVertex>) -> Seq<u8>
    decreases vertices.len(),
{
    if vertices.len() == 0 {
        Seq::empty()
    } else {
        vertices_bytes(vertices.drop_last()) + vertex_bytes(vertices.last())
    }
}

/// Words take four bytes each.
pub proof fn lemma_words_bytes_len(words: Seq<u32>)
    ensures
        words_bytes(words).len() == 4 * words.len(),
    decreases words.len(),
{
    if words.len() > 0 {
        lemma_words_bytes_len(words.drop_last());
    }
}

/// Vertices take `VERTEX_SIZE` bytes each.
pub proof fn lemma_vertices_bytes_len(vertices: Seq<QuadVertex>)
    ensures
        vertices_bytes(vertices).len() == VERTEX_SIZE * vertices.len(),
    decreases vertices.len(),
{
    if vertices.len() > 0 {
        lemma_vertices_bytes_len(vertices.drop_last());
    }
}

/// The bytes of two runs of vertices are those of the first followed by
/// those of the second.
pub proof fn lemma_vertices_bytes_concat(first: Seq<QuadVertex>, second: Seq<QuadVertex>)
    ensures
        vertices_bytes(first + second) == vertices_bytes(first) + vertices_bytes(second),
    decreases second.len(),
{
    if second.len() == 0 {
        assert(first + second =~= first);
    } else {
        lemma_vertices_bytes_concat(first, second.drop_last());
        assert((first + second).drop_last() =~= first + second.drop_last());
        assert((first + second).last() == second.last());
    }
}

/// Appends the bytes of `w` to `out`.
fn push_word(out: &mut Vec<u8>, w: u32)
    ensures
        final(out)@ == old(out)@ + word_bytes(w),
{
    out.push((w % 256) as u8);
    out.push((w / 256 % 256) as u8);
    out.push((w / 65536 % 256) as u8);
    out.push((w / 16777216) as u8);
    assert(out@ =~= old(out)@ + word_bytes(w));
}

/// The word with the two's-complement bits of `v`.
pub fn to_unsigned_bits(v: i32) -> (r: u32)
    ensures
        r == unsigned_bits(v),
{
    if v >= 0 {
        v as u32
    } else {
        (v as i64 + 0x1_0000_0000) as u32
    }
}

/// Appends the bytes of `v` to `out`.
fn push_vertex(out: &mut Vec<u8>, v: &QuadVertex)
    ensures
        final(out)@ == old(out)@ + vertex_bytes(*v),
{
    push_word(out, v.position.x);
    push_word(out, v.position.y);
    push_word(out, v.position.z);
    push_word(out, v.color.r);
    push_word(out, v.color.g);
    push_word(out, v.color.b);
    push_word(out, v.color.a);
    push_word(out, v.tex_coord.u);
    push_word(out, v.tex_coord.v);
    push_word(out, v.tex_index);
    push_word(out, v.tiling_factor);
    push_word(out, to_unsigned_bits(v.entity_id));
    assert(out@ =~= old(out)@ + vertex_bytes(*v));
}

/// The vertices as the bytes that go to the device: each scalar least
/// significant byte first, vertex after vertex.
pub fn to_bytes(quad_vertices: &[QuadVertex]) -> (r: Vec<u8>)
    ensures
        r@ == vertices_bytes(quad_vertices@),
        r@.len() == VERTEX_SIZE * quad_vertices@.len(),
{
    let mut out: Vec<u8> = Vec::new();
    let n = quad_vertices.len();
    let mut i: usize = 0;
    while i < n
        invariant
            0 <= i <= n,
            n == quad_vertices@.len(),
            out@ == vertices_bytes(quad_vertices@.take(i as int)),
        decreases n - i,
    {
        assert(quad_vertices@.take(i + 1).drop_last() =~= quad_vertices@.take(i as int));
        push_vertex(&mut out, &quad_vertices[i]);
        i = i + 1;
    }
    proof {
        assert(quad_vertices@.take(n as int) =~= quad_vertices@);
        lemma_vertices_bytes_len(quad_vertices@);
    }
    out
}

/// The words as bytes, each least significant byte first.
pub fn words_to_bytes(words: &[u32]) -> (r: Vec<u8>)
    ensures
        r@ == words_bytes(words@),
        r@.len() == 4 * words@.len(),
{
    let mut out: Vec<u8> = Vec::new();
    let n = words.len();
    let mut i: usize = 0;
    while i < n
        invariant
            0 <= i <= n,
            n == words@.len(),
            out@ == words_bytes(words@.take(i as int)),
        decreases n - i,
    {
        assert(words@.take(i + 1).drop_last() =~= words@.take(i as int));
        push_word(&mut out, words[i]);
        i = i + 1;
    }
    proof {
        assert(words@.take(n as int) =~= words@);
        lemma_words_bytes_len(words@);
    }
    out
}

} // verus!
