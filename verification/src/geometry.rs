//! Geometry: vertex upload accounting and attribute binding.
//!
//! The host allocates the GPU buffer and transfers the flat vertex array
//! into it; the library accounts for the upload — how many triangle-list
//! vertices the component count amounts to — and decides attribute binding
//! from the location the linked program reported.

use vstd::prelude::*;

use crate::errors::DrawError;
use crate::errors::GeometryError;

verus! {

/// A GPU-resident vertex buffer, with the vertex count its contents amount
/// to under the pipeline's three-components-per-vertex layout.
#[derive(Debug, Clone, Copy, PartialEq, Eq, Structural)]
pub struct VertexBuffer {
    /// The host's identifier for the GPU buffer object.
    pub handle: u32,
    /// Number of whole vertices the uploaded components form.
    pub vertex_count: usize,
}

/// The attribute layout a draw call binds: location slot, components per
/// vertex, and the packing of consecutive vertices.
#[derive(Debug, Clone, Copy, PartialEq, Eq, Structural)]
pub struct AttributeBinding {
    /// The integer slot the linked program assigned to the attribute.
    pub location: u32,
    /// Components read per vertex.
    pub component_count: u32,
    /// Byte distance between consecutive vertices; zero means tightly
    /// packed.
    pub stride: u32,
    /// Byte offset of the first component in the buffer.
    pub offset: u32,
}

/// How many whole vertices a flat component array forms when each vertex
/// takes three components; a trailing partial vertex is not drawn.
pub open spec fn vertex_count_spec(component_len: usize) -> int {
    component_len as int / 3
}

/// Decides the outcome of uploading the flat vertex array from what the
/// host observed. `created` is the buffer object the GPU allocated, if any;
/// `component_len` is the length of the uploaded component array.
///
/// Succeeds exactly when a buffer object exists — an empty array is a valid
/// upload that yields a vertex count of zero, not an error.
pub fn upload(created: Option<u32>, component_len: usize) -> (r: Result<VertexBuffer, DrawError>)
    ensures
        r is Ok <==> created is Some,
        created is None ==> r == Err::<VertexBuffer, DrawError>(DrawError::BufferAllocationFailed),
        created matches Some(handle) ==> (r matches Ok(vb) && vb.handle == handle
            && vb.vertex_count == vertex_count_spec(component_len)),
        component_len == 0 && created is Some ==> (r matches Ok(vb) && vb.vertex_count == 0),
{
    match created {
        None => Err(DrawError::BufferAllocationFailed),
        Some(handle) => Ok(VertexBuffer { handle, vertex_count: component_len / 3 }),
    }
}

/// Decides attribute binding from the location the linked program reported
/// for the attribute's name.
///
/// A negative location means the named attribute does not exist in the
/// linked program; any other location yields the binding to configure and
/// enable.
pub fn describe_attribute(location: i32, component_count: u32, stride: u32, offset: u32) -> (r:
    Result<AttributeBinding, GeometryError>)
    ensures
        r is Ok <==> location >= 0,
        location < 0 ==> r == Err::<AttributeBinding, GeometryError>(
            GeometryError::AttributeNotFound,
        ),
        location >= 0 ==> r == Ok::<AttributeBinding, GeometryError>(
            (AttributeBinding { location: location as u32, component_count, stride, offset }),
        ),
{
    if location < 0 {
        Err(GeometryError::AttributeNotFound)
    } else {
        Ok(AttributeBinding { location: location as u32, component_count, stride, offset })
    }
}

} // verus!
