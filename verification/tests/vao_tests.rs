use trident_engine::driver_state::{AttribSlot, DriverState, MAX_VERTEX_ATTRIBS};
use trident_engine::gl_loading::{
    BufferObject, BufferType, ElementType, VertexArrayObject, VertexAttributePointer,
};
use trident_engine::opengl_utils::{EngineError, GlErrorKind};

fn three_descriptors() -> Vec<VertexAttributePointer> {
    vec![
        VertexAttributePointer::new((0, 3, ElementType::Float, false, 32, 0)),
        VertexAttributePointer::new((1, 3, ElementType::Float, false, 32, 12)),
        VertexAttributePointer::new((2, 2, ElementType::Float, false, 32, 24)),
    ]
}

/// A vertex array bound together with a vertex buffer, ready for
/// descriptor application.
fn bound_setup(st: &mut DriverState) -> VertexArrayObject {
    let vao = VertexArrayObject::new(st, three_descriptors());
    let vbo = BufferObject::new(st, vec![0; 32], ElementType::Float, BufferType::ArrayBuffer)
        .expect("vertex buffer construction failed");
    vao.bind(st);
    vbo.bind(st);
    vao
}

fn attrib_table(st: &DriverState, vao: &VertexArrayObject) -> Vec<AttribSlot> {
    st.vaos[(vao.id - 1) as usize].attribs.clone()
}

#[test]
fn construction_touches_no_attribute_state() {
    let mut st = DriverState::new();
    let vao = VertexArrayObject::new(&mut st, three_descriptors());
    let table = attrib_table(&st, &vao);
    assert_eq!(table.len(), MAX_VERTEX_ATTRIBS);
    for slot in table {
        assert!(!slot.enabled);
        assert_eq!(slot.buffer, 0);
    }
}

#[test]
fn vao_unbind_after_bind_leaves_null_handle() {
    let mut st = DriverState::new();
    let vao = VertexArrayObject::new(&mut st, Vec::new());
    vao.bind(&mut st);
    assert_eq!(st.bound_vertex_array, vao.id);
    vao.unbind(&mut st);
    assert_eq!(st.bound_vertex_array, 0);
}

#[test]
fn descriptor_application_order_is_irrelevant() {
    let mut first = DriverState::new();
    let vao_first = bound_setup(&mut first);
    for i in [0usize, 1, 2] {
        vao_first.set_attrib_pointer(&mut first, i).expect("in-range apply must succeed");
    }

    let mut second = DriverState::new();
    let vao_second = bound_setup(&mut second);
    for i in [2usize, 0, 1] {
        vao_second.set_attrib_pointer(&mut second, i).expect("in-range apply must succeed");
    }

    assert_eq!(attrib_table(&first, &vao_first), attrib_table(&second, &vao_second));
    assert!(first.error_flag.is_none());
    assert!(second.error_flag.is_none());
}

#[test]
fn each_descriptor_touches_only_its_own_slot() {
    let mut st = DriverState::new();
    let vao = bound_setup(&mut st);
    let before = attrib_table(&st, &vao);
    vao.set_attrib_pointer(&mut st, 1).expect("in-range apply must succeed");
    let after = attrib_table(&st, &vao);
    for k in 0..MAX_VERTEX_ATTRIBS {
        if k == 1 {
            assert_ne!(after[k], before[k]);
            assert_eq!(after[k].offset, 12);
        } else {
            assert_eq!(after[k], before[k]);
        }
    }
}

#[test]
fn out_of_range_position_is_reported_and_ignored() {
    let mut st = DriverState::new();
    let vao = bound_setup(&mut st);
    let before = attrib_table(&st, &vao);
    let r = vao.set_attrib_pointer(&mut st, 3);
    assert_eq!(r.unwrap_err(), EngineError::AttribIndexOutOfRange);
    assert_eq!(attrib_table(&st, &vao), before);
    assert!(st.error_flag.is_none());
}

#[test]
fn slot_index_beyond_the_driver_limit_is_refused() {
    let mut st = DriverState::new();
    let vao = VertexArrayObject::new(
        &mut st,
        vec![VertexAttributePointer::new((
            MAX_VERTEX_ATTRIBS as u32,
            3,
            ElementType::Float,
            false,
            0,
            0,
        ))],
    );
    let vbo = BufferObject::new(&mut st, vec![0; 4], ElementType::Float, BufferType::ArrayBuffer)
        .expect("vertex buffer construction failed");
    vao.bind(&mut st);
    vbo.bind(&mut st);
    let r = vao.set_attrib_pointer(&mut st, 0);
    assert_eq!(r.unwrap_err(), EngineError::Driver(GlErrorKind::InvalidValue));
    assert_eq!(st.error_flag, Some(GlErrorKind::InvalidValue));
}

#[test]
fn applying_without_bound_vertex_array_is_refused() {
    let mut st = DriverState::new();
    let vao = VertexArrayObject::new(&mut st, three_descriptors());
    let r = vao.set_attrib_pointer(&mut st, 0);
    assert_eq!(r.unwrap_err(), EngineError::Driver(GlErrorKind::InvalidOperation));
    assert_eq!(st.error_flag, Some(GlErrorKind::InvalidOperation));
}

#[test]
fn enable_marks_every_stored_descriptor() {
    let mut st = DriverState::new();
    let vao = bound_setup(&mut st);
    vao.enable_attrib_pointers(&mut st).expect("enable with bound vertex array must succeed");
    let table = attrib_table(&st, &vao);
    for k in 0..MAX_VERTEX_ATTRIBS {
        assert_eq!(table[k].enabled, k < 3);
    }
}

#[test]
fn enable_without_bound_vertex_array_is_refused() {
    let mut st = DriverState::new();
    let vao = VertexArrayObject::new(&mut st, three_descriptors());
    let r = vao.enable_attrib_pointers(&mut st);
    assert_eq!(r.unwrap_err(), EngineError::Driver(GlErrorKind::InvalidOperation));
    assert_eq!(st.error_flag, Some(GlErrorKind::InvalidOperation));
}

#[test]
fn add_attrib_pointer_appends_without_driver_calls() {
    let mut st = DriverState::new();
    let mut vao = VertexArrayObject::new(&mut st, Vec::new());
    let before = st.trace.len();
    vao.add_attrib_pointer(VertexAttributePointer::new((0, 3, ElementType::Float, false, 0, 0)));
    assert_eq!(vao.attrib_pointers.len(), 1);
    assert_eq!(st.trace.len(), before);
}

#[test]
fn vao_release_unbinds_then_deletes() {
    let mut st = DriverState::new();
    let vao = VertexArrayObject::new(&mut st, Vec::new());
    let id = vao.id;
    vao.bind(&mut st);
    vao.release(&mut st);
    assert_eq!(st.bound_vertex_array, 0);
    assert!(!st.vaos[(id - 1) as usize].alive);
    assert!(st.error_flag.is_none());
}
