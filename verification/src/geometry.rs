//! The fixed triangle geometry: interleaved vertex data, index data, and
//! the attribute layout that binds the vertex buffer to the shader inputs.
//!
//! Numeric vertex components are carried as 32-bit IEEE 754 bit patterns,
//! so that the data can be stated and checked exactly; the driver
//! reinterprets them as floats when it uploads the buffer.

use vstd::prelude::*;

verus! {

/// How many vertices the triangle has.
pub open spec fn vertex_count() -> nat {
    3
}

/// How many float-sized components one vertex occupies in the buffer:
/// three for position, three for color.
pub open spec fn components_per_vertex() -> nat {
    6
}

/// The interleaved vertex buffer, as IEEE 754 bit patterns, in upload
/// order: for each vertex, position x, y, z then color r, g, b.
///
/// The positions are the corners of a triangle (right, apex, left; the
/// apex height is sqrt(3)/2, making the triangle equilateral), colored
/// blue, green and red respectively.
pub open spec fn vertex_data_spec() -> Seq<u32> {
    seq![
        0x3F00_0000u32, 0x0000_0000u32, 0x0000_0000u32,
        0x0000_0000u32, 0x0000_0000u32, 0x3F80_0000u32,
        0x0000_0000u32, 0x3F5D_B3D7u32, 0x0000_0000u32,
        0x0000_0000u32, 0x3F80_0000u32, 0x0000_0000u32,
        0xBF00_0000u32, 0x0000_0000u32, 0x0000_0000u32,
        0x3F80_0000u32, 0x0000_0000u32, 0x0000_0000u32,
    ]
}

/// The index buffer: one triangle over the three vertices, in order.
pub open spec fn index_data_spec() -> Seq<u32> {
    seq![0u32, 1u32, 2u32]
}

/// The vertex buffer contents. Fixed: every call returns the same data,
/// and nothing ever produces different contents for the vertex buffer.
pub fn vertex_data_bits() -> (v: Vec<u32>)
    ensures
        v@ == vertex_data_spec(),
{
    let mut v: Vec<u32> = Vec::new();
    v.push(0x3F00_0000);
    v.push(0x0000_0000);
    v.push(0x0000_0000);
    v.push(0x0000_0000);
    v.push(0x0000_0000);
    v.push(0x3F80_0000);
    v.push(0x0000_0000);
    v.push(0x3F5D_B3D7);
    v.push(0x0000_0000);
    v.push(0x0000_0000);
    v.push(0x3F80_0000);
    v.push(0x0000_0000);
    v.push(0xBF00_0000);
    v.push(0x0000_0000);
    v.push(0x0000_0000);
    v.push(0x3F80_0000);
    v.push(0x0000_0000);
    v.push(0x0000_0000);
    proof {
        assert(v@ =~= vertex_data_spec());
    }
    v
}

/// The index buffer contents: the one triangle 0, 1, 2.
pub fn index_data() -> (v: Vec<u32>)
    ensures
        v@ == index_data_spec(),
{
    let mut v: Vec<u32> = Vec::new();
    v.push(0);
    v.push(1);
    v.push(2);
    proof {
        assert(v@ =~= index_data_spec());
    }
    v
}

/// The vertex buffer holds exactly one vertex record per vertex.
pub proof fn lemma_vertex_data_covers_vertices()
    ensures
        vertex_data_spec().len() == vertex_count() * components_per_vertex(),
{
}

/// Every index addresses an existing vertex, and the index buffer
/// describes exactly one triangle.
pub proof fn lemma_indices_in_range()
    ensures
        index_data_spec().len() == 3,
        forall|i: int|
            0 <= i < index_data_spec().len() ==> #[trigger] index_data_spec()[i]
                < vertex_count(),
{
}

/// One vertex attribute of the interleaved vertex buffer, measured in
/// float-sized components.
#[derive(Clone, Copy, Debug, PartialEq, Eq, Structural)]
pub struct VertexAttribute {
    /// The shader input slot the attribute feeds.
    pub location: u32,
    /// How many components the attribute reads per vertex.
    pub component_count: u32,
    /// Where the attribute's first component lies within a vertex record.
    pub offset_components: u32,
    /// The distance between one vertex record and the next.
    pub stride_components: u32,
}

impl VertexAttribute {
    /// The attribute reads at least one component, and all of them lie
    /// inside a single vertex record.
    pub open spec fn well_formed(self) -> bool {
        &&& self.component_count > 0
        &&& self.offset_components + self.component_count <= self.stride_components
    }
}

/// The attribute layout: slot 0 reads the three position components at
/// the start of each vertex record, slot 1 the three color components
/// that follow them; both walk the buffer one whole vertex at a time.
pub fn attribute_layout() -> (v: Vec<VertexAttribute>)
    ensures
        v@.len() == 2,
        v@[0] == (VertexAttribute {
            location: 0,
            component_count: 3,
            offset_components: 0,
            stride_components: 6,
        }),
        v@[1] == (VertexAttribute {
            location: 1,
            component_count: 3,
            offset_components: 3,
            stride_components: 6,
        }),
        forall|i: int| 0 <= i < v@.len() ==> (#[trigger] v@[i]).well_formed(),
        forall|i: int|
            0 <= i < v@.len() ==> (#[trigger] v@[i]).stride_components
                == components_per_vertex(),
{
    let mut v: Vec<VertexAttribute> = Vec::new();
    v.push(VertexAttribute {
        location: 0,
        component_count: 3,
        offset_components: 0,
        stride_components: 6,
    });
    v.push(VertexAttribute {
        location: 1,
        component_count: 3,
        offset_components: 3,
        stride_components: 6,
    });
    v
}

} // verus!
