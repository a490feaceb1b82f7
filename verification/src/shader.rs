//! Shader stages: compile and link decisions, and the fixed GLSL sources of
//! the pipeline.
//!
//! The host performs the GPU calls (object creation, source submission,
//! compile or link trigger, status and log queries) and reports the outcome
//! as a probe value; the library decides whether the step succeeded and which
//! error — with which diagnostic — to report otherwise.

use vstd::prelude::*;

use crate::errors::ShaderError;

verus! {

/// A shader stage: per-vertex transform or per-pixel color.
#[derive(Debug, Clone, Copy, PartialEq, Eq, Structural)]
pub enum ShaderStage {
    Vertex,
    Fragment,
}

/// A successfully compiled shader stage, identified by the GPU object handle
/// the host assigned to it.
#[derive(Debug, Clone, Copy, PartialEq, Eq, Structural)]
pub struct CompiledShader {
    /// The stage this object was compiled for.
    pub stage: ShaderStage,
    /// The host's identifier for the GPU shader object.
    pub handle: u32,
}

/// A successfully linked GPU program, identified by the GPU object handle
/// the host assigned to it.
#[derive(Debug, Clone, Copy, PartialEq, Eq, Structural)]
pub struct LinkedProgram {
    /// The host's identifier for the GPU program object.
    pub handle: u32,
}

/// What the host observed while compiling one shader stage.
#[derive(Debug, Clone, PartialEq, Eq)]
pub enum CompileProbe {
    /// The GPU refused to allocate a shader object.
    NoShaderObject,
    /// A shader object was created, the source submitted and compilation
    /// triggered; the compile-status flag and the diagnostic log are as the
    /// context reported them (`status` is `None` when the flag query did not
    /// yield a boolean).
    Compiled { handle: u32, status: Option<bool>, log: Option<String> },
}

/// What the host observed while linking the program.
#[derive(Debug, Clone, PartialEq, Eq)]
pub enum LinkProbe {
    /// The GPU refused to allocate a program object.
    NoProgramObject,
    /// A program object was created, both shaders attached and linking
    /// triggered; the link-status flag and the diagnostic log are as the
    /// context reported them.
    Linked { handle: u32, status: Option<bool>, log: Option<String> },
}

/// A compile probe that counts as success: the object exists and the
/// compile-status flag was queried as `true`.
pub open spec fn compile_succeeded(probe: CompileProbe) -> bool {
    probe matches CompileProbe::Compiled { status: Some(true), .. }
}

/// A link probe that counts as success.
pub open spec fn link_succeeded(probe: LinkProbe) -> bool {
    probe matches LinkProbe::Linked { status: Some(true), .. }
}

/// The diagnostic a failed compile reports: the compiler's log, or a fixed
/// fallback when the context had none.
pub open spec fn compile_diagnostic(log: Option<String>) -> Seq<char> {
    match log {
        Some(l) => l@,
        None => "Unknown error creating shader"@,
    }
}

/// The diagnostic a failed link reports: the linker's log, or a fixed
/// fallback when the context had none.
pub open spec fn link_diagnostic(log: Option<String>) -> Seq<char> {
    match log {
        Some(l) => l@,
        None => "Unknown error creating program object"@,
    }
}

/// The shader object handle a compile probe carries; meaningful when an
/// object was created.
pub open spec fn compile_probe_handle(probe: CompileProbe) -> u32 {
    match probe {
        CompileProbe::Compiled { handle, .. } => handle,
        CompileProbe::NoShaderObject => 0,
    }
}

/// The program object handle a link probe carries; meaningful when an
/// object was created.
pub open spec fn link_probe_handle(probe: LinkProbe) -> u32 {
    match probe {
        LinkProbe::Linked { handle, .. } => handle,
        LinkProbe::NoProgramObject => 0,
    }
}

/// The diagnostic of a whole compile probe; meaningful when the probe holds
/// a failed compile.
pub open spec fn compile_probe_diagnostic(probe: CompileProbe) -> Seq<char> {
    match probe {
        CompileProbe::Compiled { log, .. } => compile_diagnostic(log),
        CompileProbe::NoShaderObject => Seq::empty(),
    }
}

/// The diagnostic of a whole link probe; meaningful when the probe holds a
/// failed link.
pub open spec fn link_probe_diagnostic(probe: LinkProbe) -> Seq<char> {
    match probe {
        LinkProbe::Linked { log, .. } => link_diagnostic(log),
        LinkProbe::NoProgramObject => Seq::empty(),
    }
}

/// Decides the outcome of compiling one shader stage from what the host
/// observed.
///
/// Succeeds exactly when the status flag was `true`; a missing shader object
/// is an allocation failure, and any other outcome is a compile failure
/// carrying the compiler's log or the fixed fallback.
pub fn compile_shader(stage: ShaderStage, probe: CompileProbe) -> (r: Result<
    CompiledShader,
    ShaderError,
>)
    ensures
        r is Ok <==> compile_succeeded(probe),
        probe is NoShaderObject ==> r == Err::<CompiledShader, ShaderError>(
            ShaderError::AllocationFailed,
        ),
        probe matches CompileProbe::Compiled { handle, status: Some(true), .. } ==> r == Ok::<
            CompiledShader,
            ShaderError,
        >((CompiledShader { stage, handle })),
        probe matches CompileProbe::Compiled { status, .. } && status != Some(true) ==> (
        r matches Err(ShaderError::CompileFailed(m)) && m@ == compile_probe_diagnostic(probe)),
        probe matches CompileProbe::Compiled { status, log: None, .. } && status != Some(true)
            ==> (r matches Err(ShaderError::CompileFailed(m)) && m@.len() > 0),
{
    proof {
        reveal_strlit("Unknown error creating shader");
    }
    match probe {
        CompileProbe::NoShaderObject => Err(ShaderError::AllocationFailed),
        CompileProbe::Compiled { handle, status, log } => match status {
            Some(true) => Ok(CompiledShader { stage, handle }),
            _ => match log {
                Some(l) => Err(ShaderError::CompileFailed(l)),
                None => Err(ShaderError::CompileFailed("Unknown error creating shader".to_owned())),
            },
        },
    }
}

/// Decides the outcome of linking the vertex and fragment stages from what
/// the host observed. The vertex stage is attached before the fragment
/// stage, so the caller hands the pair in that fixed order.
///
/// Succeeds exactly when the status flag was `true`; a missing program
/// object is an allocation failure, and any other outcome is a link failure
/// carrying the linker's log or the fixed fallback.
pub fn link_program(vertex: &CompiledShader, fragment: &CompiledShader, probe: LinkProbe) -> (r:
    Result<LinkedProgram, ShaderError>)
    requires
        vertex.stage == ShaderStage::Vertex,
        fragment.stage == ShaderStage::Fragment,
    ensures
        r is Ok <==> link_succeeded(probe),
        probe is NoProgramObject ==> r == Err::<LinkedProgram, ShaderError>(
            ShaderError::AllocationFailed,
        ),
        probe matches LinkProbe::Linked { handle, status: Some(true), .. } ==> r == Ok::<
            LinkedProgram,
            ShaderError,
        >((LinkedProgram { handle })),
        probe matches LinkProbe::Linked { status, .. } && status != Some(true) ==> (
        r matches Err(ShaderError::LinkFailed(m)) && m@ == link_probe_diagnostic(probe)),
        probe matches LinkProbe::Linked { status, log: None, .. } && status != Some(true) ==> (
        r matches Err(ShaderError::LinkFailed(m)) && m@.len() > 0),
{
    proof {
        reveal_strlit("Unknown error creating program object");
    }
    match probe {
        LinkProbe::NoProgramObject => Err(ShaderError::AllocationFailed),
        LinkProbe::Linked { handle, status, log } => match status {
            Some(true) => Ok(LinkedProgram { handle }),
            _ => match log {
                Some(l) => Err(ShaderError::LinkFailed(l)),
                None => Err(
                    ShaderError::LinkFailed("Unknown error creating program object".to_owned()),
                ),
            },
        },
    }
}

/// The fixed vertex-stage source: passes a 4-component position attribute
/// through unchanged.
pub open spec fn vertex_shader_source_spec() -> Seq<char> {
    "#version 300 es\n\nin vec4 position;\n\nvoid main() {\n    gl_Position = position;\n}\n"@
}

/// The fixed fragment-stage source: emits solid opaque white.
pub open spec fn fragment_shader_source_spec() -> Seq<char> {
    "#version 300 es\n\nprecision highp float;\nout vec4 outColor;\n\nvoid main() {\n    outColor = vec4(1, 1, 1, 1);\n}\n"@
}

/// The source text of a stage; written in spec terms by
/// [`shader_source_spec`].
pub open spec fn shader_source_spec(stage: ShaderStage) -> Seq<char> {
    match stage {
        ShaderStage::Vertex => vertex_shader_source_spec(),
        ShaderStage::Fragment => fragment_shader_source_spec(),
    }
}

/// Hands out the fixed GLSL source of the given stage; the pipeline has
/// exactly this one vertex/fragment pair and the text is not configurable.
pub fn shader_source(stage: ShaderStage) -> (s: &'static str)
    ensures
        s@ == shader_source_spec(stage),
{
    match stage {
        ShaderStage::Vertex => "#version 300 es\n\nin vec4 position;\n\nvoid main() {\n    gl_Position = position;\n}\n",
        ShaderStage::Fragment => "#version 300 es\n\nprecision highp float;\nout vec4 outColor;\n\nvoid main() {\n    outColor = vec4(1, 1, 1, 1);\n}\n",
    }
}

} // verus!
