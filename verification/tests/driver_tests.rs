use trident_engine::driver_state::{DriverState, GlCall};
use trident_engine::gl_loading::{
    BufferObject, BufferType, ElementType, VertexArrayObject, VertexAttributePointer,
};
use trident_engine::opengl_utils::{
    check_opengl_error, classify_error_code, ErrorProbe, GlErrorKind, GL_INVALID_ENUM,
    GL_INVALID_FRAMEBUFFER_OPERATION, GL_INVALID_OPERATION, GL_INVALID_VALUE, GL_NO_ERROR,
    GL_OUT_OF_MEMORY, GL_STACK_OVERFLOW, GL_STACK_UNDERFLOW,
};
use trident_engine::shader_management::{CompileReport, LinkReport, Shader, ShaderProgram, ShaderType};

#[test]
fn classification_matches_driver_codes() {
    assert_eq!(classify_error_code(GL_NO_ERROR), None);
    assert_eq!(classify_error_code(GL_INVALID_ENUM), Some(GlErrorKind::InvalidEnum));
    assert_eq!(classify_error_code(GL_INVALID_VALUE), Some(GlErrorKind::InvalidValue));
    assert_eq!(classify_error_code(GL_INVALID_OPERATION), Some(GlErrorKind::InvalidOperation));
    assert_eq!(
        classify_error_code(GL_INVALID_FRAMEBUFFER_OPERATION),
        Some(GlErrorKind::InvalidFramebufferOperation)
    );
    assert_eq!(classify_error_code(GL_OUT_OF_MEMORY), Some(GlErrorKind::OutOfMemory));
    assert_eq!(classify_error_code(GL_STACK_UNDERFLOW), Some(GlErrorKind::StackUnderflow));
    assert_eq!(classify_error_code(GL_STACK_OVERFLOW), Some(GlErrorKind::StackOverflow));
    assert_eq!(classify_error_code(0x9999), None);
}

#[test]
fn classification_agrees_with_the_real_driver_constants() {
    assert_eq!(classify_error_code(gl::NO_ERROR), None);
    assert_eq!(classify_error_code(gl::INVALID_ENUM), Some(GlErrorKind::InvalidEnum));
    assert_eq!(classify_error_code(gl::INVALID_VALUE), Some(GlErrorKind::InvalidValue));
    assert_eq!(classify_error_code(gl::INVALID_OPERATION), Some(GlErrorKind::InvalidOperation));
    assert_eq!(
        classify_error_code(gl::INVALID_FRAMEBUFFER_OPERATION),
        Some(GlErrorKind::InvalidFramebufferOperation)
    );
    assert_eq!(classify_error_code(gl::OUT_OF_MEMORY), Some(GlErrorKind::OutOfMemory));
    assert_eq!(classify_error_code(gl::STACK_UNDERFLOW), Some(GlErrorKind::StackUnderflow));
    assert_eq!(classify_error_code(gl::STACK_OVERFLOW), Some(GlErrorKind::StackOverflow));
}

#[test]
fn probe_returns_and_clears_the_first_error() {
    let mut st = DriverState::new();
    assert_eq!(check_opengl_error(&mut st), None);
    // Two misuses: the flag keeps the first.
    st.bind_buffer(BufferType::ArrayBuffer, 9);
    st.delete_shader(7);
    assert_eq!(check_opengl_error(&mut st), Some(GlErrorKind::InvalidOperation));
    assert_eq!(check_opengl_error(&mut st), None);
}

#[test]
fn disabled_probe_leaves_the_flag_pending() {
    let mut st = DriverState::new();
    st.bind_buffer(BufferType::ArrayBuffer, 9);
    let silent = ErrorProbe::new(false);
    assert_eq!(silent.check(&mut st), None);
    assert_eq!(st.error_flag, Some(GlErrorKind::InvalidOperation));
    let checking = ErrorProbe::new(true);
    assert_eq!(checking.check(&mut st), Some(GlErrorKind::InvalidOperation));
    assert_eq!(st.error_flag, None);
}

#[test]
fn indexed_draw_reads_six_vertices_as_two_triangles() {
    let mut st = DriverState::new();

    // Four vertices of three floats each.
    let corners: [[f32; 3]; 4] = [
        [-0.5, 0.5, 0.0],
        [-0.5, -0.5, 0.0],
        [0.5, -0.5, 0.0],
        [0.5, 0.5, 0.0],
    ];
    let mut vertices: Vec<u32> = Vec::new();
    for corner in corners {
        for scalar in corner {
            vertices.push(scalar.to_bits());
        }
    }
    let indices: Vec<u32> = vec![0, 1, 2, 2, 3, 0];

    let vao = VertexArrayObject::new(
        &mut st,
        vec![VertexAttributePointer::new((0, 3, ElementType::Float, false, 0, 0))],
    );
    let vbo = BufferObject::new(&mut st, vertices, ElementType::Float, BufferType::ArrayBuffer)
        .expect("vertex buffer construction failed");
    let ebo = BufferObject::new(
        &mut st,
        indices,
        ElementType::UnsignedInt,
        BufferType::ElementArrayBuffer,
    )
    .expect("index buffer construction failed");

    vao.bind(&mut st);
    vbo.bind(&mut st);
    ebo.bind(&mut st);
    vao.set_attrib_pointer(&mut st, 0).expect("descriptor apply must succeed");
    vao.enable_attrib_pointers(&mut st).expect("enable must succeed");

    let vertex =
        Shader::new(&mut st, ShaderType::Vertex, "void main() {}".to_string(), &CompileReport {
            created: true,
            ok: true,
            log: String::new(),
        });
    let fragment =
        Shader::new(&mut st, ShaderType::Fragment, "void main() {}".to_string(), &CompileReport {
            created: true,
            ok: true,
            log: String::new(),
        });
    let mut program = ShaderProgram::new(&mut st, vec![vertex, fragment]);
    program.link(&mut st, LinkReport { ok: true, log: String::new(), uniforms: Vec::new() });
    program.use_program(&mut st).expect("linked program must activate");

    let stats = st.draw_elements(6).expect("a fully bound draw must succeed");
    assert_eq!(stats.reads, vec![0, 1, 2, 2, 3, 0]);
    assert_eq!(stats.reads.len(), 6);
    assert_eq!(stats.triangles, 2);
    assert_eq!(*st.trace.last().unwrap(), GlCall::DrawElements(6));
    assert!(st.error_flag.is_none());
}

#[test]
fn drawing_without_bindings_is_refused() {
    let mut st = DriverState::new();
    let r = st.draw_elements(3);
    assert!(r.is_err());
    assert_eq!(st.error_flag, Some(GlErrorKind::InvalidOperation));
}

#[test]
fn upload_with_nothing_bound_is_refused() {
    let mut st = DriverState::new();
    st.buffer_data(BufferType::ArrayBuffer, vec![1, 2]);
    assert_eq!(st.error_flag, Some(GlErrorKind::InvalidOperation));
    assert!(st.buffers.is_empty());
}
