//! The vertex record, its buffer layout and the quad mesh.
//!
//! Components are stored as the bit patterns of IEEE-754 single-precision
//! numbers, so the record holds exactly the bytes that the GPU reads.

use vstd::prelude::*;

verus! {

/// Bit pattern of `0.0f32`.
pub const F32_ZERO: u32 = 0x0000_0000;

/// Bit pattern of `1.0f32`.
pub const F32_ONE: u32 = 0x3f80_0000;

/// Bit pattern of `0.5f32`.
pub const F32_HALF: u32 = 0x3f00_0000;

/// Bit pattern of `-0.5f32`.
pub const F32_NEG_HALF: u32 = 0xbf00_0000;

/// Number of 32-bit words in one vertex record: two for the position, three for the colour.
pub const VERTEX_WORDS: usize = 5;

/// Byte size of one vertex record.
pub const VERTEX_SIZE: u64 = 20;

/// Number of vertices in the quad mesh: two triangles sharing a diagonal.
pub const VERTEX_COUNT: u32 = 6;

/// One vertex: a 2D position and an RGB colour, each component an `f32` bit pattern.
#[derive(Clone, Copy, Debug)]
pub struct Vertex {
    pub position: [u32; 2],
    pub color: [u32; 3],
}

/// The formats a vertex attribute can have here.
#[derive(Clone, Copy, Debug, PartialEq, Eq, Structural)]
pub enum VertexFormat {
    Float32x2,
    Float32x3,
}

/// Whether a buffer advances per vertex or per instance.
#[derive(Clone, Copy, Debug, PartialEq, Eq, Structural)]
pub enum VertexStepMode {
    Vertex,
    Instance,
}

/// One attribute of the vertex buffer layout.
#[derive(Clone, Copy, Debug, PartialEq, Eq, Structural)]
pub struct VertexAttribute {
    pub format: VertexFormat,
    pub offset: u64,
    pub shader_location: u32,
}

/// How the pipeline reads one vertex out of the buffer.
#[derive(Clone, Debug)]
pub struct VertexLayout {
    pub array_stride: u64,
    pub step_mode: VertexStepMode,
    pub attributes: Vec<VertexAttribute>,
}

/// Byte size of an attribute of the given format.
pub open spec fn format_size(f: VertexFormat) -> nat {
    match f {
        VertexFormat::Float32x2 => 8,
        VertexFormat::Float32x3 => 12,
    }
}

impl VertexFormat {
    /// Byte size of an attribute of this format.
    pub fn size(&self) -> (r: u64)
        ensures
            r == format_size(*self),
    {
        match self {
            VertexFormat::Float32x2 => 8,
            VertexFormat::Float32x3 => 12,
        }
    }
}

/// The layout that [`Vertex::desc`] returns: position at location 0 and offset 0,
/// colour at location 1 right after it, stepped per vertex.
pub open spec fn layout_attributes() -> Seq<VertexAttribute> {
    seq![
        VertexAttribute { format: VertexFormat::Float32x2, offset: 0, shader_location: 0 },
        VertexAttribute { format: VertexFormat::Float32x3, offset: 8, shader_location: 1 },
    ]
}

/// A layout is packed when the attributes follow one another without gaps
/// and the last one ends at the stride.
pub open spec fn is_packed(attrs: Seq<VertexAttribute>, stride: nat) -> bool {
    &&& attrs.len() > 0
    &&& attrs[0].offset == 0
    &&& forall|i: int|
        0 <= i < attrs.len() - 1 ==> #[trigger] attrs[i + 1].offset == attrs[i].offset
            + format_size(attrs[i].format)
    &&& attrs.last().offset + format_size(attrs.last().format) == stride
}

/// The words of one vertex in memory order.
pub open spec fn words_of(v: Vertex) -> Seq<u32> {
    seq![v.position@[0], v.position@[1], v.color@[0], v.color@[1], v.color@[2]]
}

/// The words of a sequence of vertices, one record after another.
pub open spec fn mesh_words(m: Seq<Vertex>) -> Seq<u32>
    decreases m.len(),
{
    if m.len() == 0 {
        seq![]
    } else {
        mesh_words(m.drop_last()) + words_of(m.last())
    }
}

/// Byte `k` (0 = least significant) of a 32-bit word.
pub open spec fn byte_of(w: u32, k: int) -> u8 {
    let shifted: int = if k == 0 {
        w as int
    } else if k == 1 {
        w as int / 0x100
    } else if k == 2 {
        w as int / 0x1_0000
    } else {
        w as int / 0x100_0000
    };
    (shifted % 0x100) as u8
}

/// The bytes of a sequence of words, four per word, least significant byte
/// first unless `big_endian`.
pub open spec fn word_bytes(w: Seq<u32>, big_endian: bool) -> Seq<u8> {
    Seq::new(
        4 * w.len(),
        |i: int|
            byte_of(
                w[i / 4],
                if big_endian {
                    3 - i % 4
                } else {
                    i % 4
                },
            ),
    )
}

/// The vertex at position `(x, y)` with colour `(r, g, b)`.
pub open spec fn corner(x: u32, y: u32, r: u32, g: u32, b: u32) -> Vertex {
    Vertex { position: [x, y], color: [r, g, b] }
}

/// Lower left corner, red.
pub open spec fn corner_a() -> Vertex {
    corner(F32_NEG_HALF, F32_NEG_HALF, F32_ONE, F32_ZERO, F32_ZERO)
}

/// Lower right corner, green.
pub open spec fn corner_b() -> Vertex {
    corner(F32_HALF, F32_NEG_HALF, F32_ZERO, F32_ONE, F32_ZERO)
}

/// Upper right corner, blue.
pub open spec fn corner_c() -> Vertex {
    corner(F32_HALF, F32_HALF, F32_ZERO, F32_ZERO, F32_ONE)
}

/// Upper left corner, yellow.
pub open spec fn corner_d() -> Vertex {
    corner(F32_NEG_HALF, F32_HALF, F32_ONE, F32_ONE, F32_ZERO)
}

/// The quad as two triangles, `a b d` and `d b c`, sharing the diagonal `b d`.
pub open spec fn quad() -> Seq<Vertex> {
    seq![corner_a(), corner_b(), corner_d(), corner_d(), corner_b(), corner_c()]
}

impl Vertex {
    /// The buffer layout of a vertex record.
    pub fn desc() -> (r: VertexLayout)
        ensures
            r.array_stride == VERTEX_SIZE,
            r.step_mode == VertexStepMode::Vertex,
            r.attributes@ == layout_attributes(),
            is_packed(r.attributes@, r.array_stride as nat),
    {
        let mut attributes: Vec<VertexAttribute> = Vec::new();
        attributes.push(VertexAttribute { format: VertexFormat::Float32x2, offset: 0, shader_location: 0 });
        attributes.push(VertexAttribute { format: VertexFormat::Float32x3, offset: 8, shader_location: 1 });
        assert(attributes@ =~= layout_attributes());
        VertexLayout { array_stride: VERTEX_SIZE, step_mode: VertexStepMode::Vertex, attributes }
    }

    /// The words of this record in memory order.
    pub fn words(&self) -> (r: [u32; 5])
        ensures
            r@ == words_of(*self),
    {
        let r = [self.position[0], self.position[1], self.color[0], self.color[1], self.color[2]];
        assert(r@ =~= words_of(*self));
        r
    }
}

pub(crate) proof fn lemma_mesh_words_len(m: Seq<Vertex>)
    ensures
        mesh_words(m).len() == VERTEX_WORDS * m.len(),
    decreases m.len(),
{
    if m.len() > 0 {
        lemma_mesh_words_len(m.drop_last());
    }
}

/// The six vertices of the quad.
pub fn quad_mesh() -> (r: Vec<Vertex>)
    ensures
        r@ == quad(),
        r@.len() == VERTEX_COUNT,
{
    let a = Vertex { position: [F32_NEG_HALF, F32_NEG_HALF], color: [F32_ONE, F32_ZERO, F32_ZERO] };
    let b = Vertex { position: [F32_HALF, F32_NEG_HALF], color: [F32_ZERO, F32_ONE, F32_ZERO] };
    let c = Vertex { position: [F32_HALF, F32_HALF], color: [F32_ZERO, F32_ZERO, F32_ONE] };
    let d = Vertex { position: [F32_NEG_HALF, F32_HALF], color: [F32_ONE, F32_ONE, F32_ZERO] };
    let mut r: Vec<Vertex> = Vec::new();
    r.push(a);
    r.push(b);
    r.push(d);
    r.push(d);
    r.push(b);
    r.push(c);
    assert(r@ =~= quad());
    r
}

/// The words of all records, one after another.
pub fn mesh_to_words(mesh: &Vec<Vertex>) -> (r: Vec<u32>)
    requires
        mesh@.len() * VERTEX_WORDS <= usize::MAX,
    ensures
        r@ == mesh_words(mesh@),
        r@.len() == VERTEX_WORDS * mesh@.len(),
{
    let mut r: Vec<u32> = Vec::new();
    let mut i: usize = 0;
    while i < mesh.len()
        invariant
            i <= mesh@.len(),
            r@ == mesh_words(mesh@.subrange(0, i as int)),
        decreases mesh@.len() - i,
    {
        let w = mesh[i].words();
        r.push(w[0]);
        r.push(w[1]);
        r.push(w[2]);
        r.push(w[3]);
        r.push(w[4]);
        proof {
            let next = mesh@.subrange(0, i + 1);
            assert(next.drop_last() =~= mesh@.subrange(0, i as int));
            assert(next.last() == mesh@[i as int]);
        }
        assert(r@ =~= mesh_words(mesh@.subrange(0, i + 1)));
        i = i + 1;
    }
    assert(mesh@.subrange(0, mesh@.len() as int) =~= mesh@);
    proof {
        lemma_mesh_words_len(mesh@);
    }
    r
}

/// Relies on bytemuck::cast_slice from `u32` to `u8`: it reinterprets the
/// words as their in-memory bytes, four per word, in the machine's byte order,
/// and never fails for this pair of types.
#[verifier::external_body]
fn cast_words_to_bytes(words: &[u32]) -> (r: Vec<u8>)
    ensures
        r@.len() == 4 * words@.len(),
        r@ == word_bytes(words@, false) || r@ == word_bytes(words@, true),
{
    bytemuck::cast_slice::<u32, u8>(words).to_vec()
}

/// The bytes of the vertex buffer: the quad mesh in memory layout.
pub fn vertex_buffer_contents() -> (r: Vec<u8>)
    ensures
        r@.len() == VERTEX_COUNT * VERTEX_SIZE,
        r@ == word_bytes(mesh_words(quad()), false) || r@ == word_bytes(
            mesh_words(quad()),
            true,
        ),
{
    let mesh = quad_mesh();
    let words = mesh_to_words(&mesh);
    cast_words_to_bytes(words.as_slice())
}

} // verus!
