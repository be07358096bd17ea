//! Vertices and the layout in which the vertex stage reads them.
//!
//! A vertex buffer is a run of equally sized elements. Each element holds the
//! attributes of one vertex one after another, without padding; the layout
//! says where in the element each attribute starts and which shader input it
//! feeds.

use vstd::prelude::*;

verus! {

/// Number of bytes that one [`Vertex`] occupies in a vertex buffer.
pub const VERTEX_STRIDE: u64 = 20;

/// Number of bytes that one index occupies in an index buffer.
pub const INDEX_STRIDE: u64 = 2;

/// A corner of the mesh: where it lies and which point of the texture is
/// drawn there.
///
/// Every component is a single-precision number, held as its IEEE 754 bit
/// pattern.
#[derive(Clone, Copy, Debug, PartialEq, Eq)]
pub struct Vertex {
    /// The x, y and z coordinates.
    pub position: [u32; 3],
    /// The horizontal and vertical texture coordinates.
    pub tex_coords: [u32; 2],
}

/// How one attribute of a vertex is stored: one to four 32-bit floats.
#[derive(Clone, Copy, Debug, PartialEq, Eq, Structural)]
pub enum VertexFormat {
    Float32,
    Float32x2,
    Float32x3,
    Float32x4,
}

/// Whether a buffer advances once per vertex or once per instance.
#[derive(Clone, Copy, Debug, PartialEq, Eq, Structural)]
pub enum VertexStepMode {
    Vertex,
    Instance,
}

/// One input of the vertex stage and where a buffer element holds it.
#[derive(Clone, Copy, Debug, PartialEq, Eq, Structural)]
pub struct VertexAttribute {
    pub format: VertexFormat,
    /// First byte of the attribute within the element.
    pub offset: u64,
    /// The `@location` of the shader input that receives the attribute.
    pub shader_location: u32,
}

/// What a buffer is bound as.
#[derive(Clone, Copy, Debug, PartialEq, Eq, Structural)]
pub enum BufferUsage {
    Vertex,
    Index,
}

/// A buffer to create, with the bytes it holds from the start.
#[derive(Clone, Debug, PartialEq, Eq)]
pub struct BufferInitDescriptor {
    pub contents: Vec<u8>,
    pub usage: BufferUsage,
}

/// How a vertex buffer is cut into elements and attributes.
#[derive(Clone, Debug, PartialEq, Eq)]
pub struct VertexBufferLayout {
    /// Distance in bytes from one element to the next.
    pub array_stride: u64,
    pub step_mode: VertexStepMode,
    pub attributes: Vec<VertexAttribute>,
}

impl VertexFormat {
    /// Number of floats in the format.
    pub open spec fn components(self) -> nat {
        match self {
            VertexFormat::Float32 => 1,
            VertexFormat::Float32x2 => 2,
            VertexFormat::Float32x3 => 3,
            VertexFormat::Float32x4 => 4,
        }
    }

    /// Number of bytes in the format: four for each float.
    pub open spec fn spec_size(self) -> nat {
        4 * self.components()
    }

    /// Number of bytes in the format.
    pub fn size(&self) -> (bytes: u64)
        ensures
            bytes == self.spec_size(),
            4 <= bytes <= 16,
    {
        match self {
            VertexFormat::Float32 => 4,
            VertexFormat::Float32x2 => 8,
            VertexFormat::Float32x3 => 12,
            VertexFormat::Float32x4 => 16,
        }
    }
}

impl VertexAttribute {
    /// One past the last byte of the attribute within the element.
    pub open spec fn end(self) -> int {
        self.offset + self.format.spec_size()
    }
}

/// Offset of the entry at position `i` when the entries are stored one after
/// another from offset zero: the summed size of the entries before it.
pub open spec fn packed_offset(entries: Seq<(u32, VertexFormat)>, i: int) -> nat
    decreases i,
{
    if i <= 0 {
        0
    } else {
        packed_offset(entries, i - 1) + entries[i - 1].1.spec_size()
    }
}

/// The attributes that store `entries`, given as pairs of shader location and
/// format, one after another from offset zero.
pub open spec fn packed_attributes(entries: Seq<(u32, VertexFormat)>) -> Seq<VertexAttribute> {
    Seq::new(
        entries.len(),
        |i: int|
            VertexAttribute {
                format: entries[i].1,
                offset: packed_offset(entries, i) as u64,
                shader_location: entries[i].0,
            },
    )
}

/// A packed offset grows with the position and never exceeds sixteen bytes
/// for each entry before it.
pub proof fn lemma_packed_offset_bounds(entries: Seq<(u32, VertexFormat)>, i: int, j: int)
    requires
        0 <= i <= j,
    ensures
        packed_offset(entries, i) <= packed_offset(entries, j),
        packed_offset(entries, j) <= 16 * j,
        i < j ==> packed_offset(entries, i) + entries[i].1.spec_size() <= packed_offset(
            entries,
            j,
        ),
    decreases j,
{
    if j > 0 {
        if i < j {
            lemma_packed_offset_bounds(entries, i, j - 1);
        } else {
            lemma_packed_offset_bounds(entries, j - 1, j - 1);
        }
    }
}

/// Lays attributes out one after another from offset zero, as pairs of shader
/// location and format are given.
pub fn vertex_attr_array(entries: &[(u32, VertexFormat)]) -> (attributes: Vec<VertexAttribute>)
    requires
        16 * entries@.len() <= u64::MAX,
    ensures
        attributes@ == packed_attributes(entries@),
{
    let mut attributes: Vec<VertexAttribute> = Vec::new();
    let mut offset: u64 = 0;
    let mut i: usize = 0;
    while i < entries.len()
        invariant
            i <= entries@.len(),
            16 * entries@.len() <= u64::MAX,
            offset == packed_offset(entries@, i as int),
            attributes@ == packed_attributes(entries@).take(i as int),
        decreases entries@.len() - i,
    {
        let shader_location: u32 = entries[i].0;
        let format: VertexFormat = entries[i].1;
        proof {
            lemma_packed_offset_bounds(entries@, i as int, i + 1);
        }
        attributes.push(VertexAttribute { format, offset, shader_location });
        offset = offset + format.size();
        i = i + 1;
        assert(attributes@ =~= packed_attributes(entries@).take(i as int));
    }
    assert(attributes@ =~= packed_attributes(entries@));
    attributes
}

/// Packed attributes lie one behind another: each starts where the one
/// before it ends, so no two overlap, and the last ends where the summed
/// sizes end.
pub proof fn lemma_packed_attributes_are_contiguous(entries: Seq<(u32, VertexFormat)>, i: int)
    requires
        0 <= i < entries.len(),
        16 * entries.len() <= u64::MAX,
    ensures
        packed_attributes(entries)[i].offset == packed_offset(entries, i),
        packed_attributes(entries)[i].end() == packed_offset(entries, i + 1),
        forall|j: int|
            i < j < entries.len() ==> packed_attributes(entries)[i].end() <= (
            #[trigger] packed_attributes(entries)[j]).offset,
{
    lemma_packed_offset_bounds(entries, i, i + 1);
    assert forall|j: int| i < j < entries.len() implies packed_attributes(entries)[i].end() <= (
    #[trigger] packed_attributes(entries)[j]).offset by {
        lemma_packed_offset_bounds(entries, i, j);
    }
}

impl VertexBufferLayout {
    /// The attributes lie inside one element, in order and without overlap,
    /// and no two of them feed the same shader input.
    pub open spec fn wf(&self) -> bool {
        &&& forall|i: int|
            0 <= i < self.attributes@.len() ==> (#[trigger] self.attributes@[i]).end()
                <= self.array_stride
        &&& forall|i: int, j: int|
            0 <= i < j < self.attributes@.len() ==> (#[trigger] self.attributes@[i]).end() <= (
            #[trigger] self.attributes@[j]).offset
        &&& forall|i: int, j: int|
            0 <= i < j < self.attributes@.len() ==> (#[trigger] self.attributes@[i]).shader_location
                != (#[trigger] self.attributes@[j]).shader_location
    }

    /// The attributes fill the element from its first byte to its last.
    pub open spec fn is_packed(&self) -> bool {
        &&& self.attributes@.len() > 0 ==> self.attributes@[0].offset == 0
        &&& forall|i: int|
            0 <= i < self.attributes@.len() - 1 ==> #[trigger] self.attributes@[i].end()
                == self.attributes@[i + 1].offset
        &&& self.attributes@.len() > 0 ==> self.attributes@.last().end() == self.array_stride
        &&& self.attributes@.len() == 0 ==> self.array_stride == 0
    }
}

impl Vertex {
    /// Component `k` of a vertex in buffer order: the three coordinates of
    /// the position, then the two texture coordinates.
    pub open spec fn component(self, k: int) -> u32 {
        if k < 3 {
            self.position[k]
        } else {
            self.tex_coords[k - 3]
        }
    }

    /// The attributes of a vertex: the position at shader location 0, then
    /// the texture coordinates at shader location 1.
    pub open spec fn attributes() -> Seq<VertexAttribute> {
        seq![
            VertexAttribute { format: VertexFormat::Float32x3, offset: 0, shader_location: 0 },
            VertexAttribute { format: VertexFormat::Float32x2, offset: 12, shader_location: 1 },
        ]
    }

    /// The layout of a buffer of vertices.
    pub fn desc() -> (layout: VertexBufferLayout)
        ensures
            layout.array_stride == VERTEX_STRIDE,
            layout.step_mode == VertexStepMode::Vertex,
            layout.attributes@ == Vertex::attributes(),
            layout.wf(),
            layout.is_packed(),
    {
        let entries: Vec<(u32, VertexFormat)> = vec![
            (0u32, VertexFormat::Float32x3),
            (1u32, VertexFormat::Float32x2),
        ];
        let attributes = vertex_attr_array(entries.as_slice());
        proof {
            reveal_with_fuel(packed_offset, 3);
            assert(attributes@ =~= Vertex::attributes());
        }
        VertexBufferLayout {
            array_stride: VERTEX_STRIDE,
            step_mode: VertexStepMode::Vertex,
            attributes,
        }
    }

    /// The five words of the vertex in buffer order.
    pub fn words(&self) -> (words: [u32; 5])
        ensures
            forall|k: int| 0 <= k < 5 ==> words[k] == self.component(k),
    {
        [
            self.position[0],
            self.position[1],
            self.position[2],
            self.tex_coords[0],
            self.tex_coords[1],
        ]
    }
}

/// The words of a run of vertices: five for each vertex, in vertex order.
pub open spec fn vertex_words(vertices: Seq<Vertex>) -> Seq<u32> {
    Seq::new(5 * vertices.len(), |i: int| vertices[i / 5].component(i % 5))
}

/// Writes the words of a run of vertices one after another.
pub fn flatten_vertices(vertices: &[Vertex]) -> (words: Vec<u32>)
    ensures
        words@ == vertex_words(vertices@),
        words@.len() == 5 * vertices@.len(),
{
    let mut words: Vec<u32> = Vec::new();
    let mut i: usize = 0;
    while i < vertices.len()
        invariant
            i <= vertices@.len(),
            words@ == vertex_words(vertices@).take(5 * i),
        decreases vertices@.len() - i,
    {
        let w: [u32; 5] = vertices[i].words();
        words.push(w[0]);
        words.push(w[1]);
        words.push(w[2]);
        words.push(w[3]);
        words.push(w[4]);
        i = i + 1;
        assert(words@ =~= vertex_words(vertices@).take(5 * i));
    }
    assert(words@ =~= vertex_words(vertices@));
    words
}

} // verus!
