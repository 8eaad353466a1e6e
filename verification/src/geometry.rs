//! The mesh that is drawn: how its vertices are laid out in their buffer,
//! and the index list that joins them into triangles.

use vstd::prelude::*;

verus! {

/// The shape of one vertex attribute.
#[derive(Clone, Copy, Debug, PartialEq, Eq, Structural)]
pub enum VertexFormat {
    /// Three 32-bit components.
    Float32x3,
    /// Four 32-bit components.
    Float32x4,
}

impl VertexFormat {
    /// Number of components of the format.
    pub open spec fn components(self) -> nat {
        match self {
            VertexFormat::Float32x3 => 3,
            VertexFormat::Float32x4 => 4,
        }
    }

    /// Number of bytes a value of the format takes.
    pub open spec fn size(self) -> nat {
        4 * self.components()
    }
}

/// Whether a buffer is advanced once per vertex or once per instance.
#[derive(Clone, Copy, Debug, PartialEq, Eq, Structural)]
pub enum VertexStepMode {
    Vertex,
    Instance,
}

/// One input of the vertex shader and where it lies within an element.
#[derive(Clone, Copy, Debug, PartialEq, Eq, Structural)]
pub struct VertexAttribute {
    pub format: VertexFormat,
    /// Byte offset of the attribute from the start of the element.
    pub offset: u64,
    /// Location the shader reads the attribute from.
    pub shader_location: u32,
}

impl VertexAttribute {
    /// Offset of the first byte after the attribute.
    pub open spec fn end(self) -> nat {
        self.offset as nat + self.format.size()
    }
}

/// How the elements of one vertex buffer are laid out.
#[derive(Debug)]
pub struct VertexBufferLayout {
    /// Distance in bytes from one element to the next.
    pub array_stride: u64,
    pub step_mode: VertexStepMode,
    pub attributes: Vec<VertexAttribute>,
}

impl VertexBufferLayout {
    /// Whether the attributes fill an element without gap or overlap and
    /// take consecutive shader locations: the first starts at offset zero,
    /// each next one starts where the one before it ends and takes the next
    /// location, and the last ends at the stride.
    pub open spec fn is_packed(&self) -> bool {
        let attributes = self.attributes@;
        &&& attributes.len() > 0
        &&& attributes[0].offset == 0
        &&& forall|i: int|
            0 <= i < attributes.len() - 1 ==> {
                &&& (#[trigger] attributes[i + 1]).offset == attributes[i].end()
                &&& attributes[i + 1].shader_location == attributes[i].shader_location + 1
            }
        &&& self.array_stride == attributes.last().end()
    }

    /// In a packed layout an earlier attribute ends before a later one
    /// starts, every attribute ends within the stride, and shader locations
    /// grow with the position in the list.
    pub proof fn lemma_packed_attributes_are_disjoint(&self, i: int, j: int)
        requires
            self.is_packed(),
            0 <= i < j < self.attributes@.len(),
        ensures
            self.attributes@[i].end() <= self.attributes@[j].offset,
            self.attributes@[j].end() <= self.array_stride,
            self.attributes@[j].shader_location == self.attributes@[i].shader_location + (j - i),
    {
        self.lemma_packed_attributes_ascend(i, j);
        self.lemma_packed_attributes_fit(j);
    }

    /// In a packed layout every attribute starts, and every element ends,
    /// on a multiple of four bytes.
    pub proof fn lemma_packed_offsets_are_aligned(&self, i: int)
        requires
            self.is_packed(),
            0 <= i < self.attributes@.len(),
        ensures
            self.attributes@[i].offset % 4 == 0,
            self.array_stride % 4 == 0,
        decreases i,
    {
        let attributes = self.attributes@;
        if i > 0 {
            self.lemma_packed_offsets_are_aligned(i - 1);
            assert(attributes[(i - 1) + 1].offset == attributes[i - 1].end());
        }
        if i < attributes.len() - 1 {
            self.lemma_packed_offsets_are_aligned_from(i);
        }
    }

    proof fn lemma_packed_offsets_are_aligned_from(&self, i: int)
        requires
            self.is_packed(),
            0 <= i < self.attributes@.len(),
            self.attributes@[i].offset % 4 == 0,
        ensures
            self.array_stride % 4 == 0,
        decreases self.attributes@.len() - i,
    {
        let attributes = self.attributes@;
        if i < attributes.len() - 1 {
            assert(attributes[i + 1].offset == attributes[i].end());
            self.lemma_packed_offsets_are_aligned_from(i + 1);
        }
    }

    proof fn lemma_packed_attributes_ascend(&self, i: int, j: int)
        requires
            self.is_packed(),
            0 <= i < j < self.attributes@.len(),
        ensures
            self.attributes@[i].end() <= self.attributes@[j].offset,
            self.attributes@[j].shader_location == self.attributes@[i].shader_location + (j - i),
        decreases j - i,
    {
        let attributes = self.attributes@;
        assert(attributes[(j - 1) + 1].offset == attributes[j - 1].end());
        if j > i + 1 {
            self.lemma_packed_attributes_ascend(i, j - 1);
        }
    }

    proof fn lemma_packed_attributes_fit(&self, j: int)
        requires
            self.is_packed(),
            0 <= j < self.attributes@.len(),
        ensures
            self.attributes@[j].end() <= self.array_stride,
        decreases self.attributes@.len() - j,
    {
        let attributes = self.attributes@;
        if j < attributes.len() - 1 {
            self.lemma_packed_attributes_fit(j + 1);
            assert(attributes[j + 1].offset == attributes[j].end());
        }
    }
}

/// Number of vertices of the mesh.
pub const NUM_VERTICES: u32 = 5;

/// The attributes of a mesh vertex: a position at location 0, then a
/// colour at location 1.
pub open spec fn vertex_attributes() -> Seq<VertexAttribute> {
    seq![
        VertexAttribute { format: VertexFormat::Float32x3, offset: 0, shader_location: 0 },
        VertexAttribute { format: VertexFormat::Float32x3, offset: 12, shader_location: 1 },
    ]
}

/// The layout of the buffer that holds the mesh's vertices.
pub fn vertex_desc() -> (layout: VertexBufferLayout)
    ensures
        layout.array_stride == 24,
        layout.step_mode == VertexStepMode::Vertex,
        layout.attributes@ == vertex_attributes(),
        layout.is_packed(),
{
    let mut attributes: Vec<VertexAttribute> = Vec::new();
    attributes.push(
        VertexAttribute { format: VertexFormat::Float32x3, offset: 0, shader_location: 0 },
    );
    attributes.push(
        VertexAttribute { format: VertexFormat::Float32x3, offset: 12, shader_location: 1 },
    );
    assert(attributes@ =~= vertex_attributes());
    VertexBufferLayout { array_stride: 24, step_mode: VertexStepMode::Vertex, attributes }
}

/// The index list: three triangles that fan out from the last vertex.
pub const INDICES: [u16; 9] = [0, 1, 4, 1, 2, 4, 2, 3, 4];

/// Number of indices drawn: a whole number of triangles.
pub fn num_indices() -> (count: u32)
    ensures
        count == INDICES@.len(),
        count % 3 == 0,
{
    INDICES.len() as u32
}

/// Every index names a vertex of the mesh.
pub proof fn lemma_indices_in_bounds(i: int)
    requires
        0 <= i < INDICES@.len(),
    ensures
        INDICES@[i] < NUM_VERTICES,
{
}

/// The memory image of `values` with the low byte of each value first.
pub open spec fn little_endian(values: Seq<u16>) -> Seq<u8> {
    Seq::new(
        2 * values.len(),
        |i: int|
            if i % 2 == 0 {
                (values[i / 2] % 256) as u8
            } else {
                (values[i / 2] / 256) as u8
            },
    )
}

/// The memory image of `values` with the high byte of each value first.
pub open spec fn big_endian(values: Seq<u16>) -> Seq<u8> {
    Seq::new(
        2 * values.len(),
        |i: int|
            if i % 2 == 0 {
                (values[i / 2] / 256) as u8
            } else {
                (values[i / 2] % 256) as u8
            },
    )
}

/// `bytemuck::cast_slice` from 16-bit values to bytes.
///
/// The cast reinterprets the memory of the slice, so the result is the
/// values' memory image in the byte order of the machine: one of the two
/// orders, the same for every value. For this pair of types the cast cannot
/// fail: bytes need no alignment and any number of them is a whole number
/// of bytes.
#[verifier::external_body]
fn cast_to_bytes(values: &[u16]) -> (bytes: &[u8])
    ensures
        bytes@ == little_endian(values@) || bytes@ == big_endian(values@),
{
    bytemuck::cast_slice(values)
}

/// The contents of the index buffer: the memory image of `INDICES` in the
/// byte order of the machine.
pub fn index_buffer_contents() -> (bytes: Vec<u8>)
    ensures
        bytes@ == little_endian(INDICES@) || bytes@ == big_endian(INDICES@),
        bytes@.len() == 2 * INDICES@.len(),
{
    let indices: [u16; 9] = INDICES;
    let bytes = cast_to_bytes(indices.as_slice());
    vstd::slice::slice_to_vec(bytes)
}

} // verus!
