use trident_engine::client::play;
use trident_engine::driver_state::DriverState;
use trident_engine::engine_types::{Vector, Vector2, Vector3, Vector4};
use trident_engine::mesh_management::Mesh;
use trident_engine::opengl_utils::{EngineError, GlErrorKind};
use trident_engine::services::CallbackType;
use trident_engine::shader_errors::ShaderCreationFailure;

#[test]
fn vectors_carry_their_components() {
    let v2 = Vector2::new(1u32, 2u32);
    assert_eq!((v2.x, v2.y), (1, 2));
    assert_eq!(v2.component_count(), 2);

    let v3 = Vector3::new(1u32, 2u32, 3u32);
    assert_eq!((v3.x, v3.y, v3.z), (1, 2, 3));
    assert_eq!(v3.component_count(), 3);

    let v4 = Vector4::new(1u32, 2u32, 3u32, 4u32);
    assert_eq!((v4.x, v4.y, v4.z, v4.w), (1, 2, 3, 4));
    assert_eq!(v4.component_count(), 4);
}

#[test]
fn play_reports_readiness() {
    assert!(play().is_ok());
}

#[test]
fn shader_creation_failure_keeps_its_message() {
    let failure = ShaderCreationFailure::new("missing entry point".to_string());
    assert_eq!(failure.message(), "missing entry point");
}

#[test]
fn fatal_errors_are_distinguished_from_driver_rejections() {
    assert!(EngineError::EmptyBufferData.is_fatal());
    assert!(EngineError::FloatIndexElement.is_fatal());
    assert!(EngineError::UnregisteredUniform.is_fatal());
    assert!(!EngineError::AttribIndexOutOfRange.is_fatal());
    assert!(!EngineError::Driver(GlErrorKind::InvalidOperation).is_fatal());
}

#[test]
fn callback_flavours_are_distinct() {
    assert_ne!(CallbackType::Sync, CallbackType::Async);
}

#[test]
fn mesh_assembles_buffers_and_attributes() {
    let mut st = DriverState::new();
    let positions: Vec<u32> = (0..12).map(|i| (i as f32).to_bits()).collect();
    let coords: Vec<u32> = (0..8).map(|i| (i as f32 * 0.1).to_bits()).collect();
    let mesh = Mesh::new(&mut st, "quad", positions.clone(), coords.clone())
        .expect("mesh over data must assemble");

    assert_eq!(mesh.name, "quad");
    assert_eq!(mesh.vbo.get_data_len(), 20);
    assert_eq!(mesh.get_ebo().get_data_len(), 20);
    let expected_indices: Vec<u32> = (0..20).collect();
    assert_eq!(mesh.ebo.data, expected_indices);

    assert_eq!(st.bound_vertex_array, mesh.vao.id);
    assert_eq!(st.bound_array_buffer, mesh.vbo.id);
    assert_eq!(st.bound_element_array_buffer, mesh.ebo.id);

    let table = &st.vaos[(mesh.vao.id - 1) as usize].attribs;
    assert!(table[0].enabled);
    assert_eq!(table[0].size, 3);
    assert_eq!(table[0].buffer, mesh.vbo.id);
    assert!(table[1].enabled);
    assert_eq!(table[1].size, 2);
    assert_eq!(table[1].offset, 12);
    assert!(!table[2].enabled);
    assert!(st.error_flag.is_none());
}

#[test]
fn mesh_over_no_data_is_rejected() {
    let mut st = DriverState::new();
    let r = Mesh::new(&mut st, "empty", Vec::new(), Vec::new());
    assert_eq!(r.unwrap_err(), EngineError::EmptyBufferData);
    assert!(st.trace.is_empty());
}
