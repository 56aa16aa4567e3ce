use trident_engine::driver_state::{DriverState, GlCall};
use trident_engine::engine_types::{Vector3, Vector4};
use trident_engine::opengl_utils::{EngineError, GlErrorKind};
use trident_engine::shader_management::{
    make_shader_stuff, CompileReport, LinkReport, Shader, ShaderProgram, ShaderType,
};

fn good_compile() -> CompileReport {
    CompileReport { created: true, ok: true, log: String::new() }
}

fn failed_compile(log: &str) -> CompileReport {
    CompileReport { created: true, ok: false, log: log.to_string() }
}

fn link_with(uniforms: Vec<(String, i32)>) -> LinkReport {
    LinkReport { ok: true, log: String::new(), uniforms }
}

/// A linked two-stage program whose only uniform is `u_X` at location 3.
fn linked_program(st: &mut DriverState) -> ShaderProgram {
    let vertex = Shader::new(st, ShaderType::Vertex, "void main() {}".to_string(), &good_compile());
    let fragment =
        Shader::new(st, ShaderType::Fragment, "void main() {}".to_string(), &good_compile());
    let mut program = ShaderProgram::new(st, vec![vertex, fragment]);
    program.link(st, link_with(vec![("u_X".to_string(), 3)]));
    program
}

#[test]
fn successful_compile_is_recorded() {
    let mut st = DriverState::new();
    let shader = Shader::new(&mut st, ShaderType::Vertex, "src".to_string(), &good_compile());
    assert!(shader.compiled);
    assert_ne!(shader.shader_id, 0);
    assert_eq!(st.shaders[(shader.shader_id - 1) as usize].source, "src");
}

#[test]
fn refused_handle_skips_compilation() {
    let mut st = DriverState::new();
    let report = CompileReport { created: false, ok: false, log: String::new() };
    let shader = Shader::new(&mut st, ShaderType::Fragment, "src".to_string(), &report);
    assert_eq!(shader.shader_id, 0);
    assert!(!shader.compiled);
    assert_eq!(st.shaders.len(), 0);
    assert_eq!(st.trace, vec![GlCall::CreateShader(ShaderType::Fragment, 0)]);
}

#[test]
fn invalid_source_yields_failure_and_log() {
    let mut st = DriverState::new();
    let report = failed_compile("0:1: syntax error, unexpected token");
    let shader = Shader::new(&mut st, ShaderType::Vertex, "not glsl".to_string(), &report);
    assert!(!shader.compiled);
    assert!(!shader.log.is_empty());
}

#[test]
fn failed_shader_never_reaches_successful_use() {
    let mut st = DriverState::new();
    let broken =
        Shader::new(&mut st, ShaderType::Vertex, "not glsl".to_string(), &failed_compile("bad"));
    let fragment =
        Shader::new(&mut st, ShaderType::Fragment, "void main() {}".to_string(), &good_compile());
    let mut program = ShaderProgram::new(&mut st, vec![broken, fragment]);
    // Even a positive link verdict cannot mark the program linked while an
    // attached shader is uncompiled.
    program.link(&mut st, link_with(Vec::new()));
    assert!(!program.linked);
    let used = program.use_program(&mut st);
    assert_eq!(used.unwrap_err(), EngineError::Driver(GlErrorKind::InvalidOperation));
    assert_eq!(st.active_program, 0);
    let drawn = st.draw_elements(3);
    assert!(drawn.is_err());
}

#[test]
fn link_failure_is_kept_with_log() {
    let mut st = DriverState::new();
    let vertex = Shader::new(&mut st, ShaderType::Vertex, "v".to_string(), &good_compile());
    let fragment = Shader::new(&mut st, ShaderType::Fragment, "f".to_string(), &good_compile());
    let mut program = ShaderProgram::new(&mut st, vec![vertex, fragment]);
    let report = LinkReport {
        ok: false,
        log: "undefined varying".to_string(),
        uniforms: vec![("u_X".to_string(), 3)],
    };
    program.link(&mut st, report);
    assert!(!program.linked);
    let record = &st.programs[(program.program_id - 1) as usize];
    assert_eq!(record.log, "undefined varying");
    assert!(record.uniforms.is_empty());
}

#[test]
fn registered_uniform_issues_exactly_one_set_call() {
    let mut st = DriverState::new();
    let mut program = linked_program(&mut st);
    program.get_uniform_locations(&mut st, &["u_X"]);
    program.use_program(&mut st).expect("linked program must activate");
    let v = Vector3::new(0.5f32.to_bits(), 0.0f32.to_bits(), 0.7f32.to_bits());
    let before = st.trace.len();
    program.set_uniform_vec3(&mut st, "u_X", &v).expect("registered uniform must set");
    assert_eq!(st.trace.len(), before + 1);
    let expected = GlCall::Uniform3f(3, 0.5f32.to_bits(), 0.0f32.to_bits(), 0.7f32.to_bits());
    assert_eq!(st.trace[before], expected);
    let set_calls = st
        .trace
        .iter()
        .filter(|c| matches!(c, GlCall::Uniform3f(..) | GlCall::Uniform4f(..)))
        .count();
    assert_eq!(set_calls, 1);
}

#[test]
fn unregistered_uniform_always_fails() {
    let mut st = DriverState::new();
    let program = linked_program(&mut st);
    program.use_program(&mut st).expect("linked program must activate");
    let v = Vector3::new(0, 0, 0);
    let before = st.trace.len();
    let r = program.set_uniform_vec3(&mut st, "u_X", &v);
    assert_eq!(r.unwrap_err(), EngineError::UnregisteredUniform);
    assert_eq!(st.trace.len(), before);
}

#[test]
fn four_component_uniform_issues_one_set_call() {
    let mut st = DriverState::new();
    let mut program = linked_program(&mut st);
    program.get_uniform_locations(&mut st, &["u_X"]);
    program.use_program(&mut st).expect("linked program must activate");
    let v = Vector4::new(1u32, 2u32, 3u32, 4u32);
    let before = st.trace.len();
    program.set_uniform_vec4(&mut st, "u_X", &v).expect("registered uniform must set");
    assert_eq!(st.trace.len(), before + 1);
    assert_eq!(st.trace[before], GlCall::Uniform4f(3, 1, 2, 3, 4));
}

#[test]
fn registration_resolves_several_names_at_once() {
    let mut st = DriverState::new();
    let vertex = Shader::new(&mut st, ShaderType::Vertex, "v".to_string(), &good_compile());
    let fragment = Shader::new(&mut st, ShaderType::Fragment, "f".to_string(), &good_compile());
    let mut program = ShaderProgram::new(&mut st, vec![vertex, fragment]);
    program.link(
        &mut st,
        link_with(vec![("u_Color".to_string(), 0), ("u_Light".to_string(), 1)]),
    );
    program.get_uniform_locations(&mut st, &["u_Color", "u_Light", "u_Ghost"]);
    assert_eq!(program.cached_location("u_Color"), Some(0));
    assert_eq!(program.cached_location("u_Light"), Some(1));
    assert_eq!(program.cached_location("u_Ghost"), Some(-1));
    assert_eq!(program.cached_location("u_Never"), None);
}

#[test]
fn unknown_name_caches_negative_location() {
    let mut st = DriverState::new();
    let mut program = linked_program(&mut st);
    program.get_uniform_locations(&mut st, &["u_Missing"]);
    assert_eq!(program.cached_location("u_Missing"), Some(-1));
    // The driver silently ignores sets at -1: the call is issued and no
    // error is raised.
    program.use_program(&mut st).expect("linked program must activate");
    let r = program.set_uniform_vec3(&mut st, "u_Missing", &Vector3::new(0, 0, 0));
    assert!(r.is_ok());
    assert!(st.error_flag.is_none());
}

#[test]
fn release_deletes_each_shader_exactly_once() {
    let mut st = DriverState::new();
    let program = linked_program(&mut st);
    let pid = program.program_id;
    let ids: Vec<u32> = program.shaders.iter().map(|s| s.shader_id).collect();
    let before = st.trace.len();
    program.release(&mut st);
    for id in &ids {
        let deletes = st.trace[before..]
            .iter()
            .filter(|c| **c == GlCall::DeleteShader(*id))
            .count();
        assert_eq!(deletes, 1);
        assert!(!st.shaders[(*id - 1) as usize].alive);
    }
    assert!(!st.programs[(pid - 1) as usize].alive);
    // No deletion was refused: a second delete of a handle would raise an
    // invalid-value error, and none is pending.
    assert!(st.error_flag.is_none());
    st.delete_shader(ids[0]);
    assert_eq!(st.error_flag, Some(GlErrorKind::InvalidValue));
}

#[test]
fn release_deactivates_before_deleting() {
    let mut st = DriverState::new();
    let program = linked_program(&mut st);
    program.use_program(&mut st).expect("linked program must activate");
    assert_eq!(st.active_program, program.program_id);
    let before = st.trace.len();
    program.release(&mut st);
    assert_eq!(st.active_program, 0);
    assert_eq!(st.trace[before], GlCall::UseProgram(0));
}

#[test]
fn make_shader_stuff_links_when_everything_compiles() {
    let mut st = DriverState::new();
    let program = make_shader_stuff(
        &mut st,
        "vertex src".to_string(),
        "fragment src".to_string(),
        &good_compile(),
        &good_compile(),
        link_with(Vec::new()),
    );
    assert!(program.linked);
    assert_eq!(program.shaders.len(), 2);
    assert!(matches!(program.shaders[0].shader_type, ShaderType::Vertex));
    assert!(matches!(program.shaders[1].shader_type, ShaderType::Fragment));
    assert!(program.uniforms.is_empty());
}

#[test]
fn make_shader_stuff_reports_compile_failure() {
    let mut st = DriverState::new();
    let program = make_shader_stuff(
        &mut st,
        "vertex src".to_string(),
        "broken".to_string(),
        &good_compile(),
        &failed_compile("bad fragment"),
        link_with(Vec::new()),
    );
    assert!(!program.linked);
    assert!(!program.shaders[1].compiled);
}

#[test]
fn standalone_shader_release_deletes_handle() {
    let mut st = DriverState::new();
    let shader = Shader::new(&mut st, ShaderType::Vertex, "v".to_string(), &good_compile());
    let id = shader.shader_id;
    shader.release(&mut st);
    assert!(!st.shaders[(id - 1) as usize].alive);
    assert!(st.error_flag.is_none());
}
