//! Shader compile/link decisions, geometry accounting, and full draw passes
//! driven through the screen's state machine.

use render_surface::errors::{DrawError, GeometryError, ShaderError};
use render_surface::geometry::{describe_attribute, upload, AttributeBinding};
use render_surface::screen::{CanvasProbe, DrawAction, DrawState, Screen};
use render_surface::shader::{
    compile_shader, link_program, shader_source, CompileProbe, CompiledShader, LinkProbe,
    LinkedProgram, ShaderStage,
};

fn fresh_screen() -> Screen {
    Screen::new(&CanvasProbe { width: 640, height: 480, context_obtained: true }).unwrap()
}

fn good_compile(handle: u32) -> CompileProbe {
    CompileProbe::Compiled { handle, status: Some(true), log: None }
}

#[test]
fn compile_success_keeps_stage_and_handle() {
    let r = compile_shader(ShaderStage::Vertex, good_compile(5));
    assert_eq!(r, Ok(CompiledShader { stage: ShaderStage::Vertex, handle: 5 }));
}

#[test]
fn compile_failure_carries_the_compiler_log() {
    let p = CompileProbe::Compiled {
        handle: 5,
        status: Some(false),
        log: Some("0:3: syntax error".to_string()),
    };
    let r = compile_shader(ShaderStage::Fragment, p);
    assert_eq!(
        r,
        Err(ShaderError::CompileFailed("0:3: syntax error".to_string()))
    );
}

#[test]
fn compile_failure_without_log_uses_nonempty_fallback() {
    let p = CompileProbe::Compiled { handle: 5, status: None, log: None };
    match compile_shader(ShaderStage::Vertex, p) {
        Err(ShaderError::CompileFailed(m)) => assert!(!m.is_empty()),
        other => panic!("expected a compile failure, got {:?}", other),
    }
}

#[test]
fn compile_allocation_failure() {
    let r = compile_shader(ShaderStage::Vertex, CompileProbe::NoShaderObject);
    assert_eq!(r, Err(ShaderError::AllocationFailed));
}

#[test]
fn link_success_yields_the_program_handle() {
    let v = CompiledShader { stage: ShaderStage::Vertex, handle: 1 };
    let f = CompiledShader { stage: ShaderStage::Fragment, handle: 2 };
    let p = LinkProbe::Linked { handle: 9, status: Some(true), log: None };
    assert_eq!(link_program(&v, &f, p), Ok(LinkedProgram { handle: 9 }));
}

#[test]
fn link_failure_carries_the_linker_log() {
    let v = CompiledShader { stage: ShaderStage::Vertex, handle: 1 };
    let f = CompiledShader { stage: ShaderStage::Fragment, handle: 2 };
    let p = LinkProbe::Linked {
        handle: 9,
        status: Some(false),
        log: Some("varying not written".to_string()),
    };
    assert_eq!(
        link_program(&v, &f, p),
        Err(ShaderError::LinkFailed("varying not written".to_string()))
    );
}

#[test]
fn link_failure_without_log_uses_nonempty_fallback() {
    let v = CompiledShader { stage: ShaderStage::Vertex, handle: 1 };
    let f = CompiledShader { stage: ShaderStage::Fragment, handle: 2 };
    let p = LinkProbe::Linked { handle: 9, status: None, log: None };
    match link_program(&v, &f, p) {
        Err(ShaderError::LinkFailed(m)) => assert!(!m.is_empty()),
        other => panic!("expected a link failure, got {:?}", other),
    }
}

#[test]
fn link_allocation_failure() {
    let v = CompiledShader { stage: ShaderStage::Vertex, handle: 1 };
    let f = CompiledShader { stage: ShaderStage::Fragment, handle: 2 };
    assert_eq!(
        link_program(&v, &f, LinkProbe::NoProgramObject),
        Err(ShaderError::AllocationFailed)
    );
}

#[test]
fn fixed_sources_are_glsl_es_300() {
    let vs = shader_source(ShaderStage::Vertex);
    let fs = shader_source(ShaderStage::Fragment);
    assert!(vs.starts_with("#version 300 es"));
    assert!(fs.starts_with("#version 300 es"));
    assert!(vs.contains("in vec4 position;"));
    assert!(vs.contains("gl_Position = position;"));
    assert!(fs.contains("outColor = vec4(1, 1, 1, 1);"));
}

#[test]
fn upload_counts_three_components_per_vertex() {
    let vb = upload(Some(3), 9).unwrap();
    assert_eq!(vb.handle, 3);
    assert_eq!(vb.vertex_count, 3);
    assert_eq!(upload(Some(3), 11).unwrap().vertex_count, 3);
}

#[test]
fn upload_of_empty_sequence_is_zero_vertices_not_an_error() {
    let vb = upload(Some(1), 0).unwrap();
    assert_eq!(vb.vertex_count, 0);
}

#[test]
fn upload_without_buffer_object_fails() {
    assert_eq!(upload(None, 9), Err(DrawError::BufferAllocationFailed));
}

#[test]
fn attribute_lookup_on_nonexistent_name_is_not_found() {
    assert_eq!(
        describe_attribute(-1, 3, 0, 0),
        Err(GeometryError::AttributeNotFound)
    );
}

#[test]
fn attribute_lookup_on_valid_location_binds_it() {
    assert_eq!(
        describe_attribute(2, 3, 0, 0),
        Ok(AttributeBinding { location: 2, component_count: 3, stride: 0, offset: 0 })
    );
}

/// Drives one full draw pass over the given component count with every GPU
/// step succeeding, asserting the sequence of requested steps, and returns
/// the configure-and-draw action the machine issued.
fn drive_successful_pass(screen: &mut Screen, component_len: usize) -> DrawAction {
    let a = screen.draw_triangle(component_len);
    assert_eq!(a, DrawAction::CompileShader { stage: ShaderStage::Vertex });

    let a = screen.on_shader_outcome(good_compile(11));
    assert_eq!(a, DrawAction::CompileShader { stage: ShaderStage::Fragment });

    let a = screen.on_shader_outcome(good_compile(12));
    assert_eq!(
        a,
        DrawAction::LinkProgram { vertex_handle: 11, fragment_handle: 12 }
    );

    let a = screen.on_link_outcome(LinkProbe::Linked { handle: 21, status: Some(true), log: None });
    assert_eq!(a, DrawAction::BindProgramAndQueryAttribute { program_handle: 21 });

    let a = screen.on_attribute_location(0);
    assert_eq!(a, DrawAction::CreateAndFillBuffer);

    let a = screen.on_buffer_created(Some(31));
    assert_eq!(a, DrawAction::CreateVertexArray);

    let configure = screen.on_vertex_array_created(Some(41));
    let done = screen.on_draw_issued();
    assert_eq!(done, DrawAction::Stop);
    configure
}

#[test]
fn full_pass_over_the_triangle_draws_three_vertices() {
    // The fixed triangle (-0.7,-0.7,0), (0.7,-0.7,0), (0,0.7,0) is nine
    // components flat.
    let mut screen = fresh_screen();
    let configure = drive_successful_pass(&mut screen, 9);
    assert_eq!(
        configure,
        DrawAction::ConfigureAndDraw {
            binding: AttributeBinding { location: 0, component_count: 3, stride: 0, offset: 0 },
            vertex_count: 3,
        }
    );
    assert_eq!(screen.state, DrawState::Done { vertex_count: 3 });
}

#[test]
fn full_pass_over_no_vertices_draws_zero_primitives() {
    let mut screen = fresh_screen();
    let configure = drive_successful_pass(&mut screen, 0);
    match configure {
        DrawAction::ConfigureAndDraw { vertex_count, .. } => assert_eq!(vertex_count, 0),
        other => panic!("expected the draw step, got {:?}", other),
    }
    assert_eq!(screen.state, DrawState::Done { vertex_count: 0 });
}

#[test]
fn vertex_compile_failure_aborts_before_fragment_stage() {
    let mut screen = fresh_screen();
    screen.draw_triangle(9);
    let a = screen.on_shader_outcome(CompileProbe::Compiled {
        handle: 11,
        status: Some(false),
        log: Some("bad vertex shader".to_string()),
    });
    assert_eq!(a, DrawAction::Stop);
    assert_eq!(
        screen.state,
        DrawState::Failed(DrawError::Shader(ShaderError::CompileFailed(
            "bad vertex shader".to_string()
        )))
    );
}

#[test]
fn link_failure_aborts_the_pass() {
    let mut screen = fresh_screen();
    screen.draw_triangle(9);
    screen.on_shader_outcome(good_compile(11));
    screen.on_shader_outcome(good_compile(12));
    let a = screen.on_link_outcome(LinkProbe::Linked {
        handle: 21,
        status: Some(false),
        log: Some("mismatched interface".to_string()),
    });
    assert_eq!(a, DrawAction::Stop);
    assert_eq!(
        screen.state,
        DrawState::Failed(DrawError::Shader(ShaderError::LinkFailed(
            "mismatched interface".to_string()
        )))
    );
}

#[test]
fn missing_attribute_aborts_the_pass() {
    let mut screen = fresh_screen();
    screen.draw_triangle(9);
    screen.on_shader_outcome(good_compile(11));
    screen.on_shader_outcome(good_compile(12));
    screen.on_link_outcome(LinkProbe::Linked { handle: 21, status: Some(true), log: None });
    let a = screen.on_attribute_location(-1);
    assert_eq!(a, DrawAction::Stop);
    assert_eq!(
        screen.state,
        DrawState::Failed(DrawError::Geometry(GeometryError::AttributeNotFound))
    );
}

#[test]
fn buffer_allocation_failure_aborts_the_pass() {
    let mut screen = fresh_screen();
    screen.draw_triangle(9);
    screen.on_shader_outcome(good_compile(11));
    screen.on_shader_outcome(good_compile(12));
    screen.on_link_outcome(LinkProbe::Linked { handle: 21, status: Some(true), log: None });
    screen.on_attribute_location(0);
    let a = screen.on_buffer_created(None);
    assert_eq!(a, DrawAction::Stop);
    assert_eq!(screen.state, DrawState::Failed(DrawError::BufferAllocationFailed));

    // A fresh pass recovers from scratch.
    let configure = drive_successful_pass(&mut screen, 9);
    assert!(matches!(configure, DrawAction::ConfigureAndDraw { vertex_count: 3, .. }));
}

#[test]
fn vertex_array_allocation_failure_aborts_the_pass() {
    let mut screen = fresh_screen();
    screen.draw_triangle(9);
    screen.on_shader_outcome(good_compile(11));
    screen.on_shader_outcome(good_compile(12));
    screen.on_link_outcome(LinkProbe::Linked { handle: 21, status: Some(true), log: None });
    screen.on_attribute_location(0);
    screen.on_buffer_created(Some(31));
    let a = screen.on_vertex_array_created(None);
    assert_eq!(a, DrawAction::Stop);
    assert_eq!(
        screen.state,
        DrawState::Failed(DrawError::VertexArrayAllocationFailed)
    );
}
