//! The screen: a drawable canvas with a bound context, and the draw pass
//! that renders the pipeline's fixed triangle onto it.
//!
//! A draw pass is a fixed sequence of GPU steps — compile the vertex stage,
//! compile the fragment stage, link, bind the program and query its position
//! attribute, create and fill the vertex buffer, create the vertex array,
//! then configure, clear and draw. The host performs each step and reports
//! its outcome; the screen's state machine decides what the next step is,
//! aborts the pass on the first failure with the exact error of the step
//! that failed, and accounts for the vertex count the draw call issues.

use vstd::prelude::*;

use crate::errors::DrawError;
use crate::errors::GeometryError;
use crate::errors::ShaderError;
use crate::errors::ViewPortError;
use crate::geometry::AttributeBinding;
use crate::geometry::describe_attribute;
use crate::geometry::upload;
use crate::geometry::vertex_count_spec;
use crate::shader::CompileProbe;
use crate::shader::CompiledShader;
use crate::shader::LinkProbe;
use crate::shader::ShaderStage;
use crate::shader::compile_probe_diagnostic;
use crate::shader::compile_probe_handle;
use crate::shader::compile_shader;
use crate::shader::compile_succeeded;
use crate::shader::link_probe_diagnostic;
use crate::shader::link_probe_handle;
use crate::shader::link_program;
use crate::shader::link_succeeded;

verus! {

/// Where a draw pass stands: which step's outcome it is waiting for, with
/// the values earlier steps produced, or how the pass ended.
#[derive(Debug, Clone, PartialEq, Eq)]
pub enum DrawState {
    /// No pass is under way.
    Idle,
    /// The vertex stage is being compiled; `component_len` is the length of
    /// the flat vertex array this pass will upload.
    AwaitVertexShader { component_len: usize },
    /// The fragment stage is being compiled.
    AwaitFragmentShader { component_len: usize, vertex_handle: u32 },
    /// The two stages are being linked.
    AwaitLink { component_len: usize, vertex_handle: u32, fragment_handle: u32 },
    /// The program is bound and its position attribute's location queried.
    AwaitAttributeLocation { component_len: usize, program_handle: u32 },
    /// The vertex buffer is being created and filled.
    AwaitBuffer { component_len: usize, location: u32 },
    /// The vertex array object is being created and bound.
    AwaitVertexArray { location: u32, vertex_count: usize },
    /// The attribute is configured, the surface cleared and the triangle
    /// list drawn.
    AwaitDrawDone { vertex_count: usize },
    /// The pass completed; `vertex_count` vertices were drawn.
    Done { vertex_count: usize },
    /// The pass aborted on its first failing step.
    Failed(DrawError),
}

/// The next GPU step the host is asked to perform.
#[derive(Debug, Clone, PartialEq, Eq)]
pub enum DrawAction {
    /// Create a shader object for the stage, submit the stage's fixed
    /// source, trigger compilation, query the compile-status flag and, on
    /// failure, the diagnostic log; report the outcome as a compile probe.
    CompileShader { stage: ShaderStage },
    /// Create a program object, attach the vertex shader then the fragment
    /// shader, trigger linking, query the link-status flag and, on failure,
    /// the diagnostic log; report the outcome as a link probe.
    LinkProgram { vertex_handle: u32, fragment_handle: u32 },
    /// Bind the program as current, then query the location of the position
    /// attribute; report the location.
    BindProgramAndQueryAttribute { program_handle: u32 },
    /// Create a buffer object and, if one was obtained, bind it as the
    /// array buffer and transfer the flat vertex array into it; report the
    /// buffer object.
    CreateAndFillBuffer,
    /// Create a vertex array object and, if one was obtained, bind it;
    /// report the vertex array object.
    CreateVertexArray,
    /// Configure and enable the attribute per the binding, clear the color
    /// buffer to opaque black, and issue one triangle-list draw call over
    /// `vertex_count` vertices; report completion.
    ConfigureAndDraw { binding: AttributeBinding, vertex_count: usize },
    /// Nothing further: the pass is over and the state holds its outcome.
    Stop,
}

/// What the host found when asking a known canvas for a graphics context.
#[derive(Debug, Clone, Copy, PartialEq, Eq, Structural)]
pub struct CanvasProbe {
    /// Canvas width in pixels.
    pub width: u32,
    /// Canvas height in pixels.
    pub height: u32,
    /// The canvas handed out a graphics context.
    pub context_obtained: bool,
}

/// A drawable canvas whose graphics context was bound at construction, and
/// the state of its current draw pass.
#[derive(Debug, Clone, PartialEq, Eq)]
pub struct Screen {
    /// Canvas width in pixels.
    pub width: u32,
    /// Canvas height in pixels.
    pub height: u32,
    /// Where the current draw pass stands.
    pub state: DrawState,
}

impl Screen {
    /// Decides screen construction from what the host found when requesting
    /// a context from an existing canvas. The context is requested exactly
    /// once; a constructed screen never re-derives it.
    pub fn new(canvas: &CanvasProbe) -> (r: Result<Screen, ViewPortError>)
        ensures
            r is Ok <==> canvas.context_obtained,
            !canvas.context_obtained ==> r == Err::<Screen, ViewPortError>(
                ViewPortError::FailedToGetGlContext,
            ),
            canvas.context_obtained ==> r == Ok::<Screen, ViewPortError>(
                (Screen { width: canvas.width, height: canvas.height, state: DrawState::Idle }),
            ),
    {
        if canvas.context_obtained {
            Ok(Screen { width: canvas.width, height: canvas.height, state: DrawState::Idle })
        } else {
            Err(ViewPortError::FailedToGetGlContext)
        }
    }

    /// Sets the canvas pixel dimensions; nothing else changes.
    pub fn resize(&mut self, width: u32, height: u32)
        ensures
            final(self).width == width,
            final(self).height == height,
            final(self).state == old(self).state,
    {
        self.width = width;
        self.height = height;
    }

    /// Reports the canvas pixel dimensions.
    pub fn dimensions(&self) -> (d: (u32, u32))
        ensures
            d == (self.width, self.height),
    {
        (self.width, self.height)
    }

    /// Begins a draw pass over a flat vertex array of `component_len`
    /// components, restarting from scratch whatever the previous pass did.
    /// The first step is always the vertex stage: the fragment stage is not
    /// attempted until the vertex stage has compiled.
    pub fn draw_triangle(&mut self, component_len: usize) -> (a: DrawAction)
        ensures
            final(self).width == old(self).width,
            final(self).height == old(self).height,
            final(self).state == (DrawState::AwaitVertexShader { component_len }),
            a == (DrawAction::CompileShader { stage: ShaderStage::Vertex }),
    {
        self.state = DrawState::AwaitVertexShader { component_len };
        DrawAction::CompileShader { stage: ShaderStage::Vertex }
    }

    /// Takes the outcome of the compile step the pass is waiting for. A
    /// successful vertex compile moves on to the fragment stage; a
    /// successful fragment compile moves on to linking; any failure aborts
    /// the pass with the exact compile error.
    pub fn on_shader_outcome(&mut self, probe: CompileProbe) -> (a: DrawAction)
        requires
            old(self).state is AwaitVertexShader || old(self).state is AwaitFragmentShader,
        ensures
            final(self).width == old(self).width,
            final(self).height == old(self).height,
            old(self).state matches DrawState::AwaitVertexShader { component_len } ==> (
            compile_succeeded(probe) ==> (final(self).state == (DrawState::AwaitFragmentShader {
                component_len,
                vertex_handle: compile_probe_handle(probe),
            }) && a == (DrawAction::CompileShader { stage: ShaderStage::Fragment }))),
            old(self).state matches DrawState::AwaitFragmentShader { component_len, vertex_handle }
                ==> (compile_succeeded(probe) ==> (final(self).state == (DrawState::AwaitLink {
                component_len,
                vertex_handle,
                fragment_handle: compile_probe_handle(probe),
            }) && a == (DrawAction::LinkProgram {
                vertex_handle,
                fragment_handle: compile_probe_handle(probe),
            }))),
            !compile_succeeded(probe) ==> a == DrawAction::Stop,
            probe is NoShaderObject ==> final(self).state == DrawState::Failed(
                DrawError::Shader(ShaderError::AllocationFailed),
            ),
            probe matches CompileProbe::Compiled { status, .. } && status != Some(true) ==> (final(self).state matches DrawState::Failed(DrawError::Shader(ShaderError::CompileFailed(m)))
                && m@ == compile_probe_diagnostic(probe)),
    {
        let stage = if let DrawState::AwaitVertexShader { .. } = &self.state {
            ShaderStage::Vertex
        } else {
            ShaderStage::Fragment
        };
        match compile_shader(stage, probe) {
            Ok(shader) => match &self.state {
                DrawState::AwaitVertexShader { component_len } => {
                    let component_len = *component_len;
                    self.state = DrawState::AwaitFragmentShader {
                        component_len,
                        vertex_handle: shader.handle,
                    };
                    DrawAction::CompileShader { stage: ShaderStage::Fragment }
                },
                DrawState::AwaitFragmentShader { component_len, vertex_handle } => {
                    let component_len = *component_len;
                    let vertex_handle = *vertex_handle;
                    self.state = DrawState::AwaitLink {
                        component_len,
                        vertex_handle,
                        fragment_handle: shader.handle,
                    };
                    DrawAction::LinkProgram { vertex_handle, fragment_handle: shader.handle }
                },
                _ => unreached(),
            },
            Err(e) => {
                self.state = DrawState::Failed(DrawError::Shader(e));
                DrawAction::Stop
            },
        }
    }

    /// Takes the outcome of the link step. Success binds the program and
    /// asks for the position attribute's location; failure aborts the pass
    /// with the exact link error.
    pub fn on_link_outcome(&mut self, probe: LinkProbe) -> (a: DrawAction)
        requires
            old(self).state is AwaitLink,
        ensures
            final(self).width == old(self).width,
            final(self).height == old(self).height,
            old(self).state matches DrawState::AwaitLink { component_len, .. } ==> (
            link_succeeded(probe) ==> (final(self).state == (DrawState::AwaitAttributeLocation {
                component_len,
                program_handle: link_probe_handle(probe),
            }) && a == (DrawAction::BindProgramAndQueryAttribute {
                program_handle: link_probe_handle(probe),
            }))),
            !link_succeeded(probe) ==> a == DrawAction::Stop,
            probe is NoProgramObject ==> final(self).state == DrawState::Failed(
                DrawError::Shader(ShaderError::AllocationFailed),
            ),
            probe matches LinkProbe::Linked { status, .. } && status != Some(true) ==> (final(self).state matches DrawState::Failed(DrawError::Shader(ShaderError::LinkFailed(m)))
                && m@ == link_probe_diagnostic(probe)),
    {
        match &self.state {
            DrawState::AwaitLink { component_len, vertex_handle, fragment_handle } => {
                let component_len = *component_len;
                let vertex = CompiledShader { stage: ShaderStage::Vertex, handle: *vertex_handle };
                let fragment = CompiledShader {
                    stage: ShaderStage::Fragment,
                    handle: *fragment_handle,
                };
                match link_program(&vertex, &fragment, probe) {
                    Ok(program) => {
                        self.state = DrawState::AwaitAttributeLocation {
                            component_len,
                            program_handle: program.handle,
                        };
                        DrawAction::BindProgramAndQueryAttribute { program_handle: program.handle }
                    },
                    Err(e) => {
                        self.state = DrawState::Failed(DrawError::Shader(e));
                        DrawAction::Stop
                    },
                }
            },
            _ => unreached(),
        }
    }

    /// Takes the location the linked program reported for the position
    /// attribute. A negative location means the program has no such
    /// attribute and aborts the pass; otherwise the buffer step follows.
    pub fn on_attribute_location(&mut self, location: i32) -> (a: DrawAction)
        requires
            old(self).state is AwaitAttributeLocation,
        ensures
            final(self).width == old(self).width,
            final(self).height == old(self).height,
            old(self).state matches DrawState::AwaitAttributeLocation { component_len, .. } ==> (
            location >= 0 ==> (final(self).state == (DrawState::AwaitBuffer {
                component_len,
                location: location as u32,
            }) && a == DrawAction::CreateAndFillBuffer)),
            location < 0 ==> (final(self).state == DrawState::Failed(
                DrawError::Geometry(GeometryError::AttributeNotFound),
            ) && a == DrawAction::Stop),
    {
        match &self.state {
            DrawState::AwaitAttributeLocation { component_len, .. } => {
                let component_len = *component_len;
                match describe_attribute(location, 3, 0, 0) {
                    Ok(binding) => {
                        self.state = DrawState::AwaitBuffer {
                            component_len,
                            location: binding.location,
                        };
                        DrawAction::CreateAndFillBuffer
                    },
                    Err(GeometryError::AttributeNotFound) => {
                        self.state = DrawState::Failed(
                            DrawError::Geometry(GeometryError::AttributeNotFound),
                        );
                        DrawAction::Stop
                    },
                }
            },
            _ => unreached(),
        }
    }

    /// Takes the buffer object the GPU allocated for the vertex upload, if
    /// any. Success fixes the pass's vertex count — one vertex per three
    /// uploaded components — and moves on to the vertex array step; an
    /// empty upload is valid and yields a count of zero.
    pub fn on_buffer_created(&mut self, created: Option<u32>) -> (a: DrawAction)
        requires
            old(self).state is AwaitBuffer,
        ensures
            final(self).width == old(self).width,
            final(self).height == old(self).height,
            old(self).state matches DrawState::AwaitBuffer { component_len, location } ==> (created
                is Some ==> (final(self).state is AwaitVertexArray
                && final(self).state->AwaitVertexArray_location == location
                && final(self).state->AwaitVertexArray_vertex_count == vertex_count_spec(
                component_len,
            ) && a == DrawAction::CreateVertexArray)),
            created is None ==> (final(self).state == DrawState::Failed(
                DrawError::BufferAllocationFailed,
            ) && a == DrawAction::Stop),
    {
        match &self.state {
            DrawState::AwaitBuffer { component_len, location } => {
                let component_len = *component_len;
                let location = *location;
                match upload(created, component_len) {
                    Ok(buffer) => {
                        self.state = DrawState::AwaitVertexArray {
                            location,
                            vertex_count: buffer.vertex_count,
                        };
                        DrawAction::CreateVertexArray
                    },
                    Err(_) => {
                        self.state = DrawState::Failed(DrawError::BufferAllocationFailed);
                        DrawAction::Stop
                    },
                }
            },
            _ => unreached(),
        }
    }

    /// Takes the vertex array object the GPU allocated, if any. Success
    /// asks for the final step: configure the position attribute — three
    /// tightly packed components per vertex from the buffer's start — clear
    /// to opaque black, and issue the single triangle-list draw call.
    pub fn on_vertex_array_created(&mut self, created: Option<u32>) -> (a: DrawAction)
        requires
            old(self).state is AwaitVertexArray,
        ensures
            final(self).width == old(self).width,
            final(self).height == old(self).height,
            old(self).state matches DrawState::AwaitVertexArray { location, vertex_count } ==> (
            created is Some ==> (final(self).state == (DrawState::AwaitDrawDone { vertex_count })
                && a == (DrawAction::ConfigureAndDraw {
                binding: AttributeBinding { location, component_count: 3, stride: 0, offset: 0 },
                vertex_count,
            }))),
            created is None ==> (final(self).state == DrawState::Failed(
                DrawError::VertexArrayAllocationFailed,
            ) && a == DrawAction::Stop),
    {
        match &self.state {
            DrawState::AwaitVertexArray { location, vertex_count } => {
                let location = *location;
                let vertex_count = *vertex_count;
                match created {
                    Some(_) => {
                        self.state = DrawState::AwaitDrawDone { vertex_count };
                        DrawAction::ConfigureAndDraw {
                            binding: AttributeBinding {
                                location,
                                component_count: 3,
                                stride: 0,
                                offset: 0,
                            },
                            vertex_count,
                        }
                    },
                    None => {
                        self.state = DrawState::Failed(DrawError::VertexArrayAllocationFailed);
                        DrawAction::Stop
                    },
                }
            },
            _ => unreached(),
        }
    }

    /// Takes the host's report that the draw call was issued; the pass is
    /// complete.
    pub fn on_draw_issued(&mut self) -> (a: DrawAction)
        requires
            old(self).state is AwaitDrawDone,
        ensures
            final(self).width == old(self).width,
            final(self).height == old(self).height,
            old(self).state matches DrawState::AwaitDrawDone { vertex_count } ==> final(self).state
                == (DrawState::Done { vertex_count }),
            a == DrawAction::Stop,
    {
        match &self.state {
            DrawState::AwaitDrawDone { vertex_count } => {
                let vertex_count = *vertex_count;
                self.state = DrawState::Done { vertex_count };
                DrawAction::Stop
            },
            _ => unreached(),
        }
    }
}

} // verus!
