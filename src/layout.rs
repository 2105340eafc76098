//! The fixed vertex list and how one vertex lies in the vertex buffer.
//!
//! A vertex is a position followed by a colour, each three 32-bit floats,
//! packed without padding.

use vstd::prelude::*;

verus! {

/// Number of vertices in the triangle that every frame draws.
pub const VERTEX_COUNT: u32 = 3;

/// Components in each vertex attribute (x, y, z or r, g, b).
pub const COMPONENTS_PER_ATTRIBUTE: u64 = 3;

/// Bytes in one component, a 32-bit float.
pub const COMPONENT_BYTES: u64 = 4;

/// Attributes in one vertex: position, then colour.
pub const ATTRIBUTES_PER_VERTEX: u64 = 2;

/// One attribute of a vertex: where it starts within the vertex, and the
/// shader input it feeds.
#[derive(Clone, Copy, Debug, PartialEq, Eq, Structural)]
pub struct VertexAttribute {
    pub offset: u64,
    pub shader_location: u32,
}

/// The buffer layout of one vertex.
#[derive(Clone, Debug)]
pub struct VertexLayout {
    pub stride: u64,
    pub attributes: Vec<VertexAttribute>,
}

/// Bytes taken by one attribute.
pub open spec fn spec_attribute_bytes() -> int {
    COMPONENTS_PER_ATTRIBUTE * COMPONENT_BYTES
}

/// The buffer layout of a vertex: attribute `i` starts `i` attributes in and
/// feeds shader location `i`; the stride covers both attributes, no padding.
pub fn vertex_layout() -> (l: VertexLayout)
    ensures
        l.stride == ATTRIBUTES_PER_VERTEX * spec_attribute_bytes(),
        l.attributes@.len() == ATTRIBUTES_PER_VERTEX,
        forall|i: int|
            0 <= i < l.attributes@.len() ==> {
                &&& #[trigger] l.attributes@[i].offset == i * spec_attribute_bytes()
                &&& l.attributes@[i].shader_location == i
            },
{
    let attribute_bytes: u64 = COMPONENTS_PER_ATTRIBUTE * COMPONENT_BYTES;
    let mut attributes: Vec<VertexAttribute> = Vec::new();
    let mut i: u64 = 0;
    while i < ATTRIBUTES_PER_VERTEX
        invariant
            i <= ATTRIBUTES_PER_VERTEX,
            attribute_bytes == spec_attribute_bytes(),
            attributes@.len() == i,
            forall|j: int|
                0 <= j < i ==> {
                    &&& #[trigger] attributes@[j].offset == j * spec_attribute_bytes()
                    &&& attributes@[j].shader_location == j
                },
        decreases ATTRIBUTES_PER_VERTEX - i,
    {
        attributes.push(VertexAttribute { offset: i * attribute_bytes, shader_location: i as u32 });
        i = i + 1;
    }
    VertexLayout { stride: ATTRIBUTES_PER_VERTEX * attribute_bytes, attributes }
}

} // verus!
