//! The mesh: its corners, and the indices that join them into triangles.
//!
//! Each index names a vertex by its position in the vertex list, and each run
//! of three indices is one triangle, so a vertex shared by several triangles
//! is stored once.

use crate::buffer::flatten_vertices;
use crate::buffer::vertex_words;
use crate::buffer::Vertex;
use crate::buffer::INDEX_STRIDE;
use crate::buffer::VERTEX_STRIDE;
use crate::bytes::byte_in_memory;
use crate::bytes::u16s_in_memory;
use crate::bytes::u16s_to_bytes;
use crate::bytes::u32s_in_memory;
use crate::bytes::u32s_to_bytes;
use vstd::endian::endianness;
use vstd::endian::Endian;
use vstd::prelude::*;

verus! {

/// Why a vertex list and an index list do not make a mesh.
#[derive(Clone, Copy, Debug, PartialEq, Eq, Structural)]
pub enum MeshError {
    /// The index at `position` names no vertex; every index before it does.
    IndexOutOfRange { position: usize },
}

/// A list of vertices and the indices that join them into triangles.
#[derive(Clone, Debug, PartialEq, Eq)]
pub struct Mesh {
    pub vertices: Vec<Vertex>,
    pub indices: Vec<u16>,
}

/// Every index names one of `vertex_count` vertices.
pub open spec fn indices_in_range(indices: Seq<u16>, vertex_count: int) -> bool {
    forall|i: int| 0 <= i < indices.len() ==> (#[trigger] indices[i]) < vertex_count
}

/// The contents of a vertex buffer: each vertex as five 32-bit words.
pub open spec fn vertex_data(vertices: Seq<Vertex>, order: Endian) -> Seq<u8> {
    u32s_in_memory(vertex_words(vertices), order)
}

/// The contents of an index buffer: each index as one 16-bit word.
pub open spec fn index_data(indices: Seq<u16>, order: Endian) -> Seq<u8> {
    u16s_in_memory(indices, order)
}

/// The five corners of the pentagon, counter-clockwise from the top. In
/// decimal the positions are (-0.0868241, 0.49240386), (-0.49513406,
/// 0.06958647), (-0.21918549, -0.44939706), (0.35966998, -0.3473291) and
/// (0.44147372, 0.2347359), all at depth 0. The texture coordinate of a corner
/// at (x, y) is (x + 0.5, 0.5 - y) up to rounding: the top row of the
/// texture lies at the top of the mesh.
pub open spec fn pentagon_vertices() -> Seq<Vertex> {
    seq![
        Vertex {
            position: [0xbdb1d0d5u32, 0x3efc1c5cu32, 0u32],
            tex_coords: [0x3ed38bcbu32, 0x3bf8e90au32],
        },
        Vertex {
            position: [0xbefd8236u32, 0x3d8e835au32, 0u32],
            tex_coords: [0x3b9f7280u32, 0x3edc5f2au32],
        },
        Vertex {
            position: [0xbe607229u32, 0xbee6175fu32, 0u32],
            tex_coords: [0x3e8fc6ecu32, 0x3f730bafu32],
        },
        Vertex {
            position: [0x3eb826aau32, 0xbeb1d51fu32, 0u32],
            tex_coords: [0x3f5c1355u32, 0x3f58ea90u32],
        },
        Vertex {
            position: [0x3ee208d8u32, 0x3e705e9cu32, 0u32],
            tex_coords: [0x3f71046cu32, 0x3e87d0b2u32],
        },
    ]
}

/// The three triangles of the pentagon. All of them meet in the last corner.
pub open spec fn pentagon_indices() -> Seq<u16> {
    seq![0u16, 1u16, 4u16, 1u16, 2u16, 4u16, 2u16, 3u16, 4u16]
}

impl Mesh {
    /// Every index names a vertex.
    pub open spec fn wf(&self) -> bool {
        indices_in_range(self.indices@, self.vertices@.len() as int)
    }

    /// Makes a mesh of the two lists if every index names a vertex.
    pub fn new(vertices: Vec<Vertex>, indices: Vec<u16>) -> (result: Result<Mesh, MeshError>)
        ensures
            match result {
                Ok(mesh) => mesh.vertices == vertices && mesh.indices == indices && mesh.wf(),
                Err(MeshError::IndexOutOfRange { position }) => {
                    &&& position < indices@.len()
                    &&& indices@[position as int] >= vertices@.len()
                    &&& indices_in_range(indices@.take(position as int), vertices@.len() as int)
                },
            },
    {
        let mut i: usize = 0;
        while i < indices.len()
            invariant
                i <= indices@.len(),
                indices_in_range(indices@.take(i as int), vertices@.len() as int),
            decreases indices@.len() - i,
        {
            if indices[i] as usize >= vertices.len() {
                return Err(MeshError::IndexOutOfRange { position: i });
            }
            i = i + 1;
            assert forall|k: int| 0 <= k < i implies (#[trigger] indices@.take(i as int)[k])
                < vertices@.len() by {
                if k < i - 1 {
                    assert(indices@.take(i as int)[k] == indices@.take(i - 1)[k]);
                }
            }
        }
        assert(indices@.take(i as int) =~= indices@);
        Ok(Mesh { vertices, indices })
    }

    /// The pentagon: five corners joined into three triangles.
    pub fn pentagon() -> (mesh: Mesh)
        ensures
            mesh.vertices@ == pentagon_vertices(),
            mesh.indices@ == pentagon_indices(),
            mesh.wf(),
    {
        let vertices: Vec<Vertex> = vec![
            Vertex {
                position: [0xbdb1d0d5, 0x3efc1c5c, 0],
                tex_coords: [0x3ed38bcb, 0x3bf8e90a],
            },
            Vertex {
                position: [0xbefd8236, 0x3d8e835a, 0],
                tex_coords: [0x3b9f7280, 0x3edc5f2a],
            },
            Vertex {
                position: [0xbe607229, 0xbee6175f, 0],
                tex_coords: [0x3e8fc6ec, 0x3f730baf],
            },
            Vertex {
                position: [0x3eb826aa, 0xbeb1d51f, 0],
                tex_coords: [0x3f5c1355, 0x3f58ea90],
            },
            Vertex {
                position: [0x3ee208d8, 0x3e705e9c, 0],
                tex_coords: [0x3f71046c, 0x3e87d0b2],
            },
        ];
        let indices: Vec<u16> = vec![0, 1, 4, 1, 2, 4, 2, 3, 4];
        assert(vertices@ =~= pentagon_vertices());
        assert(indices@ =~= pentagon_indices());
        Mesh { vertices, indices }
    }

    /// Number of vertices.
    pub fn num_vertices(&self) -> (count: usize)
        ensures
            count == self.vertices@.len(),
    {
        self.vertices.len()
    }

    /// Number of indices.
    pub fn num_indices(&self) -> (count: usize)
        ensures
            count == self.indices@.len(),
    {
        self.indices.len()
    }

    /// Number of whole triangles that the indices describe.
    pub fn triangle_count(&self) -> (count: usize)
        ensures
            count == self.indices@.len() / 3,
    {
        self.indices.len() / 3
    }

    /// The contents of the vertex buffer, in the byte order of the host.
    pub fn vertex_bytes(&self) -> (bytes: Vec<u8>)
        ensures
            bytes@ == vertex_data(self.vertices@, endianness()),
            bytes@.len() == VERTEX_STRIDE * self.vertices@.len(),
    {
        let words = flatten_vertices(self.vertices.as_slice());
        u32s_to_bytes(words.as_slice())
    }

    /// The contents of the index buffer, in the byte order of the host.
    pub fn index_bytes(&self) -> (bytes: Vec<u8>)
        ensures
            bytes@ == index_data(self.indices@, endianness()),
            bytes@.len() == INDEX_STRIDE * self.indices@.len(),
    {
        u16s_to_bytes(self.indices.as_slice())
    }
}

/// A vertex buffer holds twenty bytes for each vertex and an index buffer two
/// bytes for each index, whatever the byte order.
pub proof fn lemma_buffer_lengths(vertices: Seq<Vertex>, indices: Seq<u16>, order: Endian)
    ensures
        vertex_data(vertices, order).len() == VERTEX_STRIDE * vertices.len(),
        index_data(indices, order).len() == INDEX_STRIDE * indices.len(),
{
}

/// In a vertex buffer, vertex `i` starts at byte `20 * i`, and its component
/// `k` lies in the four bytes from `4 * k` of the vertex: the position from
/// byte 0 and the texture coordinates from byte 12, as the layout of a vertex
/// says.
pub proof fn lemma_vertex_data_layout(
    vertices: Seq<Vertex>,
    order: Endian,
    i: int,
    k: int,
    b: int,
)
    requires
        0 <= i < vertices.len(),
        0 <= k < 5,
        0 <= b < 4,
    ensures
        VERTEX_STRIDE * i + 4 * k + b < vertex_data(vertices, order).len(),
        vertex_data(vertices, order)[VERTEX_STRIDE * i + 4 * k + b] == byte_in_memory(
            vertices[i].component(k) as int,
            4,
            b,
            order,
        ),
{
    let at = 20 * i + 4 * k + b;
    assert(at / 4 == 5 * i + k);
    assert(at % 4 == b);
    assert((5 * i + k) / 5 == i);
    assert((5 * i + k) % 5 == k);
}

/// In an index buffer, index `i` lies in the two bytes from `2 * i`.
pub proof fn lemma_index_data_layout(indices: Seq<u16>, order: Endian, i: int, b: int)
    requires
        0 <= i < indices.len(),
        0 <= b < 2,
    ensures
        INDEX_STRIDE * i + b < index_data(indices, order).len(),
        index_data(indices, order)[INDEX_STRIDE * i + b] == byte_in_memory(
            indices[i] as int,
            2,
            b,
            order,
        ),
{
    let at = 2 * i + b;
    assert(at / 2 == i);
    assert(at % 2 == b);
}

} // verus!
