//! Transient per-frame geometry buffers.
//!
//! A [`DynamicBuffer`] accumulates vertex and index data for textured quads
//! and serializes both streams into little-endian byte buffers ready for a
//! GPU upload. Vertex coordinates are carried as 32-bit patterns: callers
//! supply the IEEE-754 encoding of each coordinate, and the packing below
//! reproduces those patterns byte-for-byte.

use vstd::prelude::*;

verus! {

/// Kind of GPU buffer a byte stream is destined for.
#[derive(Debug, Copy, Clone, Eq, PartialEq, Hash, Structural)]
pub enum BufferType {
    VertexBuffer,
    IndexBuffer,
}

/// The binding target the GPU API uses for an array buffer.
pub const GL_ARRAY_BUFFER: u32 = 0x8892;

/// The binding target the GPU API uses for an element (index) buffer.
pub const GL_ELEMENT_ARRAY_BUFFER: u32 = 0x8893;

/// The usage tag for buffers that persist across frames.
pub const GL_STATIC_DRAW: u32 = 0x88E4;

/// The usage tag for buffers rebuilt every frame.
pub const GL_DYNAMIC_DRAW: u32 = 0x88E8;

impl BufferType {
    /// The GPU API binding target for this buffer type.
    pub fn gl_code(self) -> (code: u32)
        ensures
            self is VertexBuffer ==> code == GL_ARRAY_BUFFER,
            self is IndexBuffer ==> code == GL_ELEMENT_ARRAY_BUFFER,
    {
        match self {
            BufferType::VertexBuffer => GL_ARRAY_BUFFER,
            BufferType::IndexBuffer => GL_ELEMENT_ARRAY_BUFFER,
        }
    }
}

/// Lifetime hint for a GPU buffer: kept across frames or rebuilt each
/// frame.
#[derive(Debug, Copy, Clone, Eq, PartialEq, Hash, Structural)]
pub enum BufferUsage {
    StaticDraw,
    DynamicDraw,
}

impl BufferUsage {
    /// The GPU API usage tag for this buffer usage.
    pub fn gl_code(self) -> (code: u32)
        ensures
            self is StaticDraw ==> code == GL_STATIC_DRAW,
            self is DynamicDraw ==> code == GL_DYNAMIC_DRAW,
    {
        match self {
            BufferUsage::StaticDraw => GL_STATIC_DRAW,
            BufferUsage::DynamicDraw => GL_DYNAMIC_DRAW,
        }
    }
}

/// The little-endian byte serialization of a 32-bit word.
pub open spec fn u32_le_bytes(x: u32) -> Seq<u8> {
    seq![
        (x & 0xff) as u8,
        ((x >> 8) & 0xff) as u8,
        ((x >> 16) & 0xff) as u8,
        ((x >> 24) & 0xff) as u8,
    ]
}

/// The little-endian byte serialization of a 16-bit word.
pub open spec fn u16_le_bytes(x: u16) -> Seq<u8> {
    seq![(x & 0xff) as u8, ((x >> 8) & 0xff) as u8]
}

/// The 32-bit word read back from four little-endian bytes.
pub open spec fn u32_from_le_bytes(b0: u8, b1: u8, b2: u8, b3: u8) -> u32 {
    (b0 as u32) | ((b1 as u32) << 8) | ((b2 as u32) << 16) | ((b3 as u32) << 24)
}

/// The 16-bit word read back from two little-endian bytes.
pub open spec fn u16_from_le_bytes(b0: u8, b1: u8) -> u16 {
    (b0 as u16) | ((b1 as u16) << 8)
}

/// Serializing a 32-bit word and reading it back yields the same word.
pub proof fn lemma_u32_le_roundtrip(x: u32)
    ensures
        u32_from_le_bytes(
            u32_le_bytes(x)[0],
            u32_le_bytes(x)[1],
            u32_le_bytes(x)[2],
            u32_le_bytes(x)[3],
        ) == x,
{
    assert(((x & 0xff) as u8 as u32) | ((((x >> 8) & 0xff) as u8 as u32) << 8)
        | ((((x >> 16) & 0xff) as u8 as u32) << 16) | ((((x >> 24) & 0xff) as u8 as u32) << 24)
        == x) by (bit_vector);
}

/// Serializing a 16-bit word and reading it back yields the same word.
pub proof fn lemma_u16_le_roundtrip(x: u16)
    ensures
        u16_from_le_bytes(u16_le_bytes(x)[0], u16_le_bytes(x)[1]) == x,
{
    assert(((x & 0xff) as u8 as u16) | ((((x >> 8) & 0xff) as u8 as u16) << 8) == x)
        by (bit_vector);
}

/// A byte stream serializes a word stream when every 32-bit word appears,
/// in order, as four little-endian bytes.
pub open spec fn bytes_encode_words(bytes: Seq<u8>, words: Seq<u32>) -> bool {
    &&& bytes.len() == 4 * words.len()
    &&& forall|j: int|
        0 <= j < words.len()
            ==> bytes.subrange(4 * j, 4 * j + 4) == u32_le_bytes(#[trigger] words[j])
}

/// A byte stream serializes an index stream when every 16-bit index
/// appears, in order, as two little-endian bytes.
pub open spec fn bytes_encode_shorts(bytes: Seq<u8>, shorts: Seq<u16>) -> bool {
    &&& bytes.len() == 2 * shorts.len()
    &&& forall|j: int|
        0 <= j < shorts.len()
            ==> bytes.subrange(2 * j, 2 * j + 2) == u16_le_bytes(#[trigger] shorts[j])
}

/// Round trip through the byte buffer: any word of a serialized word
/// stream is read back unchanged from its four bytes.
pub proof fn lemma_word_bytes_roundtrip(bytes: Seq<u8>, words: Seq<u32>, j: int)
    requires
        bytes_encode_words(bytes, words),
        0 <= j < words.len(),
    ensures
        u32_from_le_bytes(bytes[4 * j], bytes[4 * j + 1], bytes[4 * j + 2], bytes[4 * j + 3])
            == words[j],
{
    let chunk = bytes.subrange(4 * j, 4 * j + 4);
    assert(bytes[4 * j] == chunk[0]);
    assert(bytes[4 * j + 1] == chunk[1]);
    assert(bytes[4 * j + 2] == chunk[2]);
    assert(bytes[4 * j + 3] == chunk[3]);
    lemma_u32_le_roundtrip(words[j]);
}

/// Round trip for one vertex: the four coordinate words pushed for
/// vertex `k` are read back byte-for-byte from the sixteen bytes the
/// built buffer holds for it.
pub proof fn lemma_vertex_roundtrip(bytes: Seq<u8>, words: Seq<u32>, k: int)
    requires
        bytes_encode_words(bytes, words),
        0 <= k,
        4 * k + 4 <= words.len(),
    ensures
        forall|c: int|
            0 <= c < 4 ==> u32_from_le_bytes(
                bytes[16 * k + 4 * c],
                bytes[16 * k + 4 * c + 1],
                bytes[16 * k + 4 * c + 2],
                bytes[16 * k + 4 * c + 3],
            ) == #[trigger] words[4 * k + c],
{
    assert forall|c: int| 0 <= c < 4 implies u32_from_le_bytes(
        bytes[16 * k + 4 * c],
        bytes[16 * k + 4 * c + 1],
        bytes[16 * k + 4 * c + 2],
        bytes[16 * k + 4 * c + 3],
    ) == #[trigger] words[4 * k + c] by {
        lemma_word_bytes_roundtrip(bytes, words, 4 * k + c);
    };
}

/// Splits a 32-bit word into its four little-endian bytes.
fn le_bytes_of_u32(x: u32) -> (b: (u8, u8, u8, u8))
    ensures
        seq![b.0, b.1, b.2, b.3] == u32_le_bytes(x),
{
    proof {
        assert((x & 0xff) < 256 && ((x >> 8) & 0xff) < 256 && ((x >> 16) & 0xff) < 256
            && ((x >> 24) & 0xff) < 256) by (bit_vector);
    }
    ((x & 0xff) as u8, ((x >> 8) & 0xff) as u8, ((x >> 16) & 0xff) as u8, ((x >> 24) & 0xff) as u8)
}

/// Splits a 16-bit word into its two little-endian bytes.
fn le_bytes_of_u16(x: u16) -> (b: (u8, u8))
    ensures
        seq![b.0, b.1] == u16_le_bytes(x),
{
    proof {
        assert((x & 0xff) < 256 && ((x >> 8) & 0xff) < 256) by (bit_vector);
    }
    ((x & 0xff) as u8, ((x >> 8) & 0xff) as u8)
}

/// Accumulates the vertex and index streams for one frame's quads.
///
/// Vertices are pushed four words (`x, y, u, v`) at a time and addressed by
/// 16-bit indices, which bounds one buffer at 65536 vertices. The structure
/// is consumed by [`DynamicBuffer::build`], which hands back the serialized
/// byte streams; it is never reused across frames.
pub struct DynamicBuffer {
    vertex_data: Vec<u32>,
    vertices: usize,
    indices: Vec<u16>,
}

impl DynamicBuffer {
    /// The vertex coordinate words pushed so far, four per vertex.
    pub closed spec fn spec_vertex_words(self) -> Seq<u32> {
        self.vertex_data@
    }

    /// The number of vertices pushed so far.
    pub closed spec fn spec_vertex_count(self) -> int {
        self.vertices as int
    }

    /// The index stream pushed so far.
    pub closed spec fn spec_indices(self) -> Seq<u16> {
        self.indices@
    }

    /// Structural invariant: four coordinate words per vertex.
    pub closed spec fn wf(self) -> bool {
        self.vertex_data@.len() == 4 * self.vertices
    }

    /// Creates an empty buffer.
    pub fn new() -> (buffer: DynamicBuffer)
        ensures
            buffer.wf(),
            buffer.spec_vertex_words() == Seq::<u32>::empty(),
            buffer.spec_vertex_count() == 0,
            buffer.spec_indices() == Seq::<u16>::empty(),
    {
        DynamicBuffer { vertex_data: Vec::new(), vertices: 0, indices: Vec::new() }
    }

    /// Appends one vertex, given as the bit patterns of its position and
    /// texture coordinates, and returns its 16-bit index.
    pub fn push_vertex(&mut self, x: u32, y: u32, u: u32, v: u32) -> (index: u16)
        requires
            old(self).wf(),
            old(self).spec_vertex_count() < 65536,
        ensures
            final(self).wf(),
            index == old(self).spec_vertex_count(),
            final(self).spec_vertex_count() == old(self).spec_vertex_count() + 1,
            final(self).spec_vertex_words() == old(self).spec_vertex_words() + seq![x, y, u, v],
            final(self).spec_indices() == old(self).spec_indices(),
    {
        let index = self.vertices as u16;
        self.vertices = self.vertices + 1;
        self.vertex_data.push(x);
        self.vertex_data.push(y);
        self.vertex_data.push(u);
        self.vertex_data.push(v);
        proof {
            assert(self.vertex_data@
                =~= old(self).vertex_data@ + seq![x, y, u, v]);
        }
        index
    }

    /// Appends the two triangles `(a, b, c)` and `(a, c, d)` to the index
    /// stream, with a consistent winding.
    pub fn push_quad(&mut self, a: u16, b: u16, c: u16, d: u16)
        requires
            old(self).wf(),
        ensures
            final(self).wf(),
            final(self).spec_indices() == old(self).spec_indices() + seq![a, b, c, a, c, d],
            final(self).spec_vertex_words() == old(self).spec_vertex_words(),
            final(self).spec_vertex_count() == old(self).spec_vertex_count(),
    {
        self.indices.push(a);
        self.indices.push(b);
        self.indices.push(c);
        self.indices.push(a);
        self.indices.push(c);
        self.indices.push(d);
        proof {
            assert(self.indices@ =~= old(self).indices@ + seq![a, b, c, a, c, d]);
        }
    }

    /// Serializes the accumulated streams, consuming the buffer: returns
    /// the index count together with the vertex bytes and the index bytes,
    /// both little-endian.
    pub fn build(self) -> (r: (usize, Vec<u8>, Vec<u8>))
        ensures
            r.0 == self.spec_indices().len(),
            bytes_encode_words(r.1@, self.spec_vertex_words()),
            bytes_encode_shorts(r.2@, self.spec_indices()),
    {
        let mut vertex_bytes: Vec<u8> = Vec::new();
        let mut i: usize = 0;
        while i < self.vertex_data.len()
            invariant
                i <= self.vertex_data@.len(),
                vertex_bytes@.len() == 4 * i,
                forall|j: int|
                    0 <= j < i
                        ==> vertex_bytes@.subrange(4 * j, 4 * j + 4)
                            == u32_le_bytes(#[trigger] self.vertex_data@[j]),
            decreases self.vertex_data@.len() - i,
        {
            let ghost prev = vertex_bytes@;
            let (b0, b1, b2, b3) = le_bytes_of_u32(self.vertex_data[i]);
            vertex_bytes.push(b0);
            vertex_bytes.push(b1);
            vertex_bytes.push(b2);
            vertex_bytes.push(b3);
            proof {
                assert forall|j: int| 0 <= j < i + 1
                    implies vertex_bytes@.subrange(4 * j, 4 * j + 4)
                        == u32_le_bytes(self.vertex_data@[j]) by {
                    if j < i {
                        assert(vertex_bytes@.subrange(4 * j, 4 * j + 4)
                            =~= prev.subrange(4 * j, 4 * j + 4));
                    } else {
                        assert(vertex_bytes@.subrange(4 * j, 4 * j + 4)
                            =~= seq![b0, b1, b2, b3]);
                    }
                };
            }
            i = i + 1;
        }
        let mut index_bytes: Vec<u8> = Vec::new();
        let mut k: usize = 0;
        while k < self.indices.len()
            invariant
                k <= self.indices@.len(),
                index_bytes@.len() == 2 * k,
                forall|j: int|
                    0 <= j < k
                        ==> index_bytes@.subrange(2 * j, 2 * j + 2)
                            == u16_le_bytes(#[trigger] self.indices@[j]),
            decreases self.indices@.len() - k,
        {
            let ghost prev = index_bytes@;
            let (b0, b1) = le_bytes_of_u16(self.indices[k]);
            index_bytes.push(b0);
            index_bytes.push(b1);
            proof {
                assert forall|j: int| 0 <= j < k + 1
                    implies index_bytes@.subrange(2 * j, 2 * j + 2)
                        == u16_le_bytes(self.indices@[j]) by {
                    if j < k {
                        assert(index_bytes@.subrange(2 * j, 2 * j + 2)
                            =~= prev.subrange(2 * j, 2 * j + 2));
                    } else {
                        assert(index_bytes@.subrange(2 * j, 2 * j + 2) =~= seq![b0, b1]);
                    }
                };
            }
            k = k + 1;
        }
        let count = self.indices.len();
        (count, vertex_bytes, index_bytes)
    }
}

} // verus!
