//! The layout of a vertex in the vertex buffer: a position of three
//! components, then texture coordinates of two, each component a 32-bit
//! float.

use vstd::prelude::*;

verus! {

/// The bytes one component of an attribute takes (a 32-bit float).
pub const COMPONENT_BYTES: u64 = 4;

/// The components of a vertex's position.
pub const POSITION_COMPONENTS: u32 = 3;

/// The components of a vertex's texture coordinates.
pub const TEX_COORD_COMPONENTS: u32 = 2;

/// One attribute of a vertex: where it starts within the vertex, the
/// shader location that reads it, and how many float components it has.
#[derive(Clone, Copy, Debug, PartialEq, Eq, Structural)]
pub struct VertexAttribute {
    pub offset: u64,
    pub shader_location: u32,
    pub components: u32,
}

/// How vertices lie in the buffer: the bytes from one vertex to the next,
/// and the attributes of each, stepping once per vertex.
#[derive(Clone, Debug)]
pub struct VertexLayout {
    pub array_stride: u64,
    pub attributes: Vec<VertexAttribute>,
}

/// The attributes of a vertex: the position at offset 0 for shader
/// location 0, then the texture coordinates right after it for location 1.
pub open spec fn vertex_attributes() -> Seq<VertexAttribute> {
    seq![
        VertexAttribute { offset: 0, shader_location: 0, components: POSITION_COMPONENTS },
        VertexAttribute {
            offset: (COMPONENT_BYTES * POSITION_COMPONENTS) as u64,
            shader_location: 1,
            components: TEX_COORD_COMPONENTS,
        },
    ]
}

/// The bytes of one vertex: all its components.
pub open spec fn vertex_stride() -> u64 {
    (COMPONENT_BYTES * (POSITION_COMPONENTS + TEX_COORD_COMPONENTS)) as u64
}

/// The layout of the engine's vertices.
pub fn vertex_layout() -> (layout: VertexLayout)
    ensures
        layout.array_stride == vertex_stride(),
        layout.attributes@ == vertex_attributes(),
        layout.array_stride == 20,
        layout.attributes@[1].offset == 12,
{
    assert(COMPONENT_BYTES == 4 && POSITION_COMPONENTS == 3 && TEX_COORD_COMPONENTS == 2);
    let mut attributes: Vec<VertexAttribute> = Vec::new();
    attributes.push(
        VertexAttribute { offset: 0, shader_location: 0, components: POSITION_COMPONENTS },
    );
    attributes.push(
        VertexAttribute {
            offset: COMPONENT_BYTES * (POSITION_COMPONENTS as u64),
            shader_location: 1,
            components: TEX_COORD_COMPONENTS,
        },
    );
    assert(attributes@ =~= vertex_attributes());
    let components: u64 = (POSITION_COMPONENTS as u64) + (TEX_COORD_COMPONENTS as u64);
    assert(components == 5);
    VertexLayout { array_stride: COMPONENT_BYTES * components, attributes }
}

/// The attributes are packed: each begins where the one before it ends,
/// the first at the start of the vertex, and the last ends at the stride.
pub proof fn lemma_vertex_layout_packed()
    ensures
        vertex_attributes()[0].offset == 0,
        vertex_attributes()[1].offset == vertex_attributes()[0].offset + COMPONENT_BYTES
            * vertex_attributes()[0].components,
        vertex_attributes()[1].offset + COMPONENT_BYTES * vertex_attributes()[1].components
            == vertex_stride(),
{
}

} // verus!
