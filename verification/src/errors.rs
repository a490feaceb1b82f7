//! The error taxonomy of the rendering surface.
//!
//! Surface acquisition failures are fatal and carry no payload; shader
//! failures carry the compiler's or linker's diagnostic log; geometry
//! failures signal a mismatch between the shader interface and the geometry
//! description. A draw pass aggregates all of them.

use vstd::prelude::*;

verus! {

/// A construction-time failure of the drawable surface: the page, the canvas
/// element or its graphics context could not be obtained.
#[derive(Debug, Clone, Copy, PartialEq, Eq, Structural)]
pub enum ViewPortError {
    /// The page's window object could not be accessed.
    FailedToGetWindowElement,
    /// The window has no document.
    FailedToGetDocumentElement,
    /// No element exists under the configured canvas identifier.
    FailedToGetCanvasElement,
    /// An element exists under the identifier but it is not a canvas.
    FailedToConvertToHtmlCanvasElement,
    /// The canvas refused to hand out a graphics context.
    FailedToGetGlContext,
}

impl ViewPortError {
    /// The user-facing description of each acquisition failure.
    pub open spec fn message_spec(self) -> Seq<char> {
        match self {
            ViewPortError::FailedToGetWindowElement => "Window could not be accessed ..."@,
            ViewPortError::FailedToGetDocumentElement => "Document could not be accessed ..."@,
            ViewPortError::FailedToGetCanvasElement => "Canvas could not be accessed ..."@,
            ViewPortError::FailedToConvertToHtmlCanvasElement => "Cast to HtmlCanvasElement could not be made ..."@,
            ViewPortError::FailedToGetGlContext => "Gl rendering context could not be accessed ..."@,
        }
    }

    /// Describes the failure in words, for reporting to the user.
    pub fn message(&self) -> (m: &'static str)
        ensures
            m@ == self.message_spec(),
    {
        match self {
            ViewPortError::FailedToGetWindowElement => "Window could not be accessed ...",
            ViewPortError::FailedToGetDocumentElement => "Document could not be accessed ...",
            ViewPortError::FailedToGetCanvasElement => "Canvas could not be accessed ...",
            ViewPortError::FailedToConvertToHtmlCanvasElement => "Cast to HtmlCanvasElement could not be made ...",
            ViewPortError::FailedToGetGlContext => "Gl rendering context could not be accessed ...",
        }
    }
}

/// A failure while building the GPU program: allocation of a GPU object, a
/// compile of one shader stage, or the link of the stage pair.
#[derive(Debug, Clone, PartialEq, Eq)]
pub enum ShaderError {
    /// The GPU object could not be created (resource exhaustion).
    AllocationFailed,
    /// Compilation failed; carries the compiler's diagnostic log.
    CompileFailed(String),
    /// Linking failed; carries the linker's diagnostic log.
    LinkFailed(String),
}

/// A mismatch between the linked shader interface and the geometry
/// description.
#[derive(Debug, Clone, Copy, PartialEq, Eq, Structural)]
pub enum GeometryError {
    /// The named attribute does not exist in the linked program.
    AttributeNotFound,
}

/// Everything that can abort a draw pass.
#[derive(Debug, Clone, PartialEq, Eq)]
pub enum DrawError {
    /// A shader stage failed to allocate, compile, or link.
    Shader(ShaderError),
    /// The vertex buffer object could not be created.
    BufferAllocationFailed,
    /// The vertex array object could not be created.
    VertexArrayAllocationFailed,
    /// The geometry description does not match the program's interface.
    Geometry(GeometryError),
}

} // verus!
