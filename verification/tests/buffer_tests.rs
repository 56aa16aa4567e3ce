use trident_engine::driver_state::{DriverState, GlCall};
use trident_engine::gl_loading::{BufferObject, BufferType, ElementType};
use trident_engine::opengl_utils::{EngineError, GlErrorKind};

fn vertex_buffer(st: &mut DriverState, words: Vec<u32>) -> BufferObject {
    BufferObject::new(st, words, ElementType::Float, BufferType::ArrayBuffer)
        .expect("vertex buffer construction failed")
}

#[test]
fn construction_uploads_and_leaves_bound() {
    let mut st = DriverState::new();
    let b = vertex_buffer(&mut st, vec![1, 2, 3]);
    assert_eq!(b.id, 1);
    assert_eq!(st.bound_array_buffer, b.id);
    assert_eq!(st.buffers[0].data, vec![1, 2, 3]);
    assert!(st.buffers[0].alive);
    assert_eq!(
        st.trace,
        vec![
            GlCall::GenBuffer(1),
            GlCall::BindBuffer(BufferType::ArrayBuffer, 1),
            GlCall::BufferData(BufferType::ArrayBuffer, 3),
        ]
    );
    assert!(st.error_flag.is_none());
}

#[test]
fn unbind_after_bind_leaves_null_handle() {
    let mut st = DriverState::new();
    let b = vertex_buffer(&mut st, vec![7, 8]);
    b.bind(&mut st);
    assert_eq!(st.bound_array_buffer, b.id);
    b.unbind(&mut st);
    assert_eq!(st.bound_array_buffer, 0);
    assert!(st.error_flag.is_none());
}

#[test]
fn element_unbind_after_bind_leaves_null_handle() {
    let mut st = DriverState::new();
    let b = BufferObject::new(
        &mut st,
        vec![0, 1, 2],
        ElementType::UnsignedInt,
        BufferType::ElementArrayBuffer,
    )
    .expect("index buffer construction failed");
    b.bind(&mut st);
    assert_eq!(st.bound_element_array_buffer, b.id);
    b.unbind(&mut st);
    assert_eq!(st.bound_element_array_buffer, 0);
}

#[test]
fn float_index_buffer_is_rejected() {
    let mut st = DriverState::new();
    let words = vec![1.5f32.to_bits(), 2.5f32.to_bits()];
    let r = BufferObject::new(&mut st, words, ElementType::Float, BufferType::ElementArrayBuffer);
    assert_eq!(r.unwrap_err(), EngineError::FloatIndexElement);
    assert!(st.trace.is_empty());
    assert_eq!(st.buffers.len(), 0);
}

#[test]
fn unsigned_index_buffer_is_accepted() {
    let mut st = DriverState::new();
    let r = BufferObject::new(
        &mut st,
        vec![0, 1, 2, 2, 3, 0],
        ElementType::UnsignedInt,
        BufferType::ElementArrayBuffer,
    );
    let b = r.expect("unsigned index buffer must construct");
    assert_eq!(st.bound_element_array_buffer, b.id);
    assert_eq!(b.get_data_len(), 6);
}

#[test]
fn float_vertex_buffer_is_accepted() {
    let mut st = DriverState::new();
    let words = vec![0.5f32.to_bits()];
    let r = BufferObject::new(&mut st, words, ElementType::Float, BufferType::ArrayBuffer);
    assert!(r.is_ok());
}

#[test]
fn empty_buffer_is_rejected() {
    let mut st = DriverState::new();
    let r = BufferObject::new(&mut st, Vec::new(), ElementType::Float, BufferType::ArrayBuffer);
    assert_eq!(r.unwrap_err(), EngineError::EmptyBufferData);
    assert!(st.trace.is_empty());
}

#[test]
fn release_unbinds_then_deletes_once() {
    let mut st = DriverState::new();
    let b = vertex_buffer(&mut st, vec![4, 5, 6]);
    let id = b.id;
    let before = st.trace.len();
    b.release(&mut st);
    assert_eq!(st.bound_array_buffer, 0);
    assert!(!st.buffers[(id - 1) as usize].alive);
    assert_eq!(
        &st.trace[before..],
        &[GlCall::BindBuffer(BufferType::ArrayBuffer, 0), GlCall::DeleteBuffer(id)]
    );
    assert!(st.error_flag.is_none());
}

#[test]
fn binding_a_dead_handle_is_refused() {
    let mut st = DriverState::new();
    let b = vertex_buffer(&mut st, vec![1]);
    let id = b.id;
    b.release(&mut st);
    st.bind_buffer(BufferType::ArrayBuffer, id);
    assert_eq!(st.bound_array_buffer, 0);
    assert_eq!(st.error_flag, Some(GlErrorKind::InvalidOperation));
}

#[test]
fn binding_an_unallocated_handle_is_refused() {
    let mut st = DriverState::new();
    st.bind_buffer(BufferType::ArrayBuffer, 42);
    assert_eq!(st.bound_array_buffer, 0);
    assert_eq!(st.error_flag, Some(GlErrorKind::InvalidOperation));
}
