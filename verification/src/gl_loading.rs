//! Buffer objects, vertex array objects and attribute descriptors.
//!
//! A [`BufferObject`] owns a driver buffer holding vertex or index data; a
//! [`VertexArrayObject`] owns a driver vertex array and aggregates the
//! [`VertexAttributePointer`] descriptors that say how buffer bytes map to
//! shader inputs. Every operation threads the modelled
//! [`DriverState`](crate::driver_state::DriverState) through, and its
//! contract states the binding, table and trace effects exactly.
//!
//! The driver latches attribute state against whatever buffer and vertex
//! array are bound when a descriptor is applied, so the binding order —
//! buffer bind, then descriptor apply — is a precondition the caller
//! manages; applying a descriptor out of order is refused by the driver
//! with an invalid-operation error, which these wrappers surface as a
//! typed result.

use vstd::prelude::*;

use crate::driver_state::{
    slot_after_pointer, AttribSlot, BufferRecord, DriverState, GlCall, VaoRecord,
    MAX_VERTEX_ATTRIBS,
};
use crate::opengl_utils::{EngineError, GlErrorKind};

verus! {

/// The two buffer targets the driver offers: vertex data and index data.
#[derive(Clone, Copy, Debug, PartialEq, Eq, Structural)]
pub enum BufferType {
    ArrayBuffer,
    ElementArrayBuffer,
}

/// The scalar type of a buffer's elements or of an attribute's components.
///
/// Floating-point scalars are carried throughout this crate as their 32-bit
/// bit patterns; the driver receives raw bytes either way and never has the
/// wrapper interpret them numerically.
#[derive(Clone, Copy, Debug, PartialEq, Eq, Structural)]
pub enum ElementType {
    Float,
    UnsignedInt,
}

/// Copies a word vector, so an object can keep the data it uploaded.
fn clone_words(data: &Vec<u32>) -> (r: Vec<u32>)
    ensures
        r@ == data@,
{
    let mut r: Vec<u32> = Vec::new();
    let n = data.len();
    let mut i: usize = 0;
    while i < n
        invariant
            n == data@.len(),
            i <= n,
            r@ == data@.take(i as int),
        decreases n - i,
    {
        r.push(data[i]);
        proof {
            assert(data@.take(i as int + 1) =~= data@.take(i as int).push(data@[i as int]));
        }
        i += 1;
    }
    proof {
        assert(data@.take(n as int) =~= data@);
    }
    r
}

/// A driver buffer object bound to a typed region of client memory. The
/// object keeps the words it uploaded; [`BufferObject::valid`] ties them to
/// the driver's record.
#[derive(Debug)]
pub struct BufferObject {
    pub id: u32,
    pub buffer_type: BufferType,
    pub elem_type: ElementType,
    pub data: Vec<u32>,
}

impl BufferObject {
    /// The object names a live buffer of `st` whose contents are the words
    /// this object uploaded.
    pub open spec fn valid(self, st: DriverState) -> bool {
        &&& st.buffer_live(self.id)
        &&& st.buffers@[self.id as int - 1].data@ == self.data@
    }

    /// Creates a buffer object over `data`: allocates a driver buffer, binds
    /// it at its target, uploads the full contents once, and leaves the
    /// buffer bound.
    ///
    /// Construction is refused, before any driver call, for empty data and
    /// for an index buffer over floating-point elements — both programmer
    /// errors at the call site.
    pub fn new(
        st: &mut DriverState,
        data: Vec<u32>,
        elem_type: ElementType,
        buffer_type: BufferType,
    ) -> (r: Result<BufferObject, EngineError>)
        requires
            old(st).wf(),
            old(st).buffers@.len() < u32::MAX,
        ensures
            final(st).wf(),
            data@.len() == 0 ==> r == Err::<BufferObject, EngineError>(EngineError::EmptyBufferData)
                && *final(st) == *old(st),
            data@.len() > 0 && buffer_type is ElementArrayBuffer && elem_type is Float ==> r
                == Err::<BufferObject, EngineError>(EngineError::FloatIndexElement) && *final(st)
                == *old(st),
            data@.len() > 0 && !(buffer_type is ElementArrayBuffer && elem_type is Float) ==> {
                let b = r->Ok_0;
                &&& r is Ok
                &&& b.id == old(st).buffers@.len() + 1
                &&& b.buffer_type == buffer_type
                &&& b.elem_type == elem_type
                &&& b.data@ == data@
                &&& b.valid(*final(st))
                &&& final(st).buffers@.len() == old(st).buffers@.len() + 1
                &&& forall|i: int|
                    0 <= i < old(st).buffers@.len() ==> final(st).buffers@[i] == old(
                        st,
                    ).buffers@[i]
                &&& final(st).vaos == old(st).vaos
                &&& final(st).shaders == old(st).shaders
                &&& final(st).programs == old(st).programs
                &&& final(st).bound_array_buffer == (if buffer_type is ArrayBuffer {
                    b.id
                } else {
                    old(st).bound_array_buffer
                })
                &&& final(st).bound_element_array_buffer == (if buffer_type
                    is ElementArrayBuffer {
                    b.id
                } else {
                    old(st).bound_element_array_buffer
                })
                &&& final(st).bound_vertex_array == old(st).bound_vertex_array
                &&& final(st).active_program == old(st).active_program
                &&& final(st).error_flag == old(st).error_flag
                &&& final(st).trace@ == old(st).trace@ + seq![
                    GlCall::GenBuffer(b.id),
                    GlCall::BindBuffer(buffer_type, b.id),
                    GlCall::BufferData(buffer_type, data@.len() as usize),
                ]
            },
    {
        if data.is_empty() {
            return Err(EngineError::EmptyBufferData);
        }
        if matches!(buffer_type, BufferType::ElementArrayBuffer) && matches!(
            elem_type,
            ElementType::Float,
        ) {
            return Err(EngineError::FloatIndexElement);
        }
        let stored = clone_words(&data);
        let n = data.len();
        let id = st.gen_buffer();
        st.bind_buffer(buffer_type, id);
        st.buffer_data(buffer_type, data);
        proof {
            assert(st.trace@ =~= old(st).trace@ + seq![
                GlCall::GenBuffer(id),
                GlCall::BindBuffer(buffer_type, id),
                GlCall::BufferData(buffer_type, n),
            ]);
        }
        Ok(BufferObject { id, buffer_type, elem_type, data: stored })
    }

    /// The number of words the buffer holds.
    pub fn get_data_len(&self) -> (n: usize)
        ensures
            n == self.data@.len(),
    {
        self.data.len()
    }

    /// Rebinds the buffer at its target. Rebinding an already-bound buffer
    /// repeats the same driver call and has no further effect.
    pub fn bind(&self, st: &mut DriverState)
        requires
            old(st).wf(),
            self.valid(*old(st)),
        ensures
            final(st).wf(),
            self.valid(*final(st)),
            final(st).buffers == old(st).buffers,
            final(st).vaos == old(st).vaos,
            final(st).shaders == old(st).shaders,
            final(st).programs == old(st).programs,
            final(st).bound_array_buffer == (if self.buffer_type is ArrayBuffer {
                self.id
            } else {
                old(st).bound_array_buffer
            }),
            final(st).bound_element_array_buffer == (if self.buffer_type is ElementArrayBuffer {
                self.id
            } else {
                old(st).bound_element_array_buffer
            }),
            final(st).bound_vertex_array == old(st).bound_vertex_array,
            final(st).active_program == old(st).active_program,
            final(st).error_flag == old(st).error_flag,
            final(st).trace@ == old(st).trace@.push(GlCall::BindBuffer(self.buffer_type, self.id)),
    {
        st.bind_buffer(self.buffer_type, self.id);
    }

    /// Rebinds the buffer's target to the null handle, leaving the target's
    /// binding slot empty whatever was bound there. Repeated calls repeat
    /// the same driver call and have no further effect.
    pub fn unbind(&self, st: &mut DriverState)
        requires
            old(st).wf(),
        ensures
            final(st).wf(),
            final(st).buffer_binding(self.buffer_type) == 0,
            final(st).buffers == old(st).buffers,
            final(st).vaos == old(st).vaos,
            final(st).shaders == old(st).shaders,
            final(st).programs == old(st).programs,
            final(st).bound_array_buffer == (if self.buffer_type is ArrayBuffer {
                0u32
            } else {
                old(st).bound_array_buffer
            }),
            final(st).bound_element_array_buffer == (if self.buffer_type is ElementArrayBuffer {
                0u32
            } else {
                old(st).bound_element_array_buffer
            }),
            final(st).bound_vertex_array == old(st).bound_vertex_array,
            final(st).active_program == old(st).active_program,
            final(st).error_flag == old(st).error_flag,
            final(st).trace@ == old(st).trace@.push(GlCall::BindBuffer(self.buffer_type, 0)),
    {
        st.bind_buffer(self.buffer_type, 0);
    }

    /// Releases the buffer at the end of its owning scope: unbinds its
    /// target, then deletes the driver handle. Consuming the object makes
    /// the release happen exactly once, and the unbind-then-delete ordering
    /// leaves no dangling active binding. No driver error is raised.
    pub fn release(self, st: &mut DriverState)
        requires
            old(st).wf(),
            self.valid(*old(st)),
        ensures
            final(st).wf(),
            !final(st).buffer_live(self.id),
            final(st).buffers@ == old(st).buffers@.update(
                self.id as int - 1,
                (BufferRecord { alive: false, ..old(st).buffers@[self.id as int - 1] }),
            ),
            final(st).vaos == old(st).vaos,
            final(st).shaders == old(st).shaders,
            final(st).programs == old(st).programs,
            final(st).bound_array_buffer == (if self.buffer_type is ArrayBuffer || old(
                st,
            ).bound_array_buffer == self.id {
                0u32
            } else {
                old(st).bound_array_buffer
            }),
            final(st).bound_element_array_buffer == (if self.buffer_type is ElementArrayBuffer
                || old(st).bound_element_array_buffer == self.id {
                0u32
            } else {
                old(st).bound_element_array_buffer
            }),
            final(st).bound_vertex_array == old(st).bound_vertex_array,
            final(st).active_program == old(st).active_program,
            final(st).error_flag == old(st).error_flag,
            final(st).trace@ == old(st).trace@ + seq![
                GlCall::BindBuffer(self.buffer_type, 0),
                GlCall::DeleteBuffer(self.id),
            ],
    {
        self.unbind(st);
        st.delete_buffer(self.id);
        proof {
            assert(st.trace@ =~= old(st).trace@ + seq![
                GlCall::BindBuffer(self.buffer_type, 0),
                GlCall::DeleteBuffer(self.id),
            ]);
        }
    }
}

/// Describes how a vertex buffer's raw bytes map to one shader input: the
/// attribute slot index, the component count, the component type, whether
/// integer components are normalized, and the stride and offset in bytes.
/// Immutable once constructed.
#[derive(Clone, Copy, Debug, PartialEq, Eq, Structural)]
pub struct VertexAttributePointer {
    pub index: u32,
    pub size: u32,
    pub data_type: ElementType,
    pub normalized: bool,
    pub stride: u32,
    pub offset: u32,
}

impl VertexAttributePointer {
    /// Builds a descriptor from `(index, size, data_type, normalized,
    /// stride, offset)`. No driver state is touched.
    pub fn new(data_tuple: (u32, u32, ElementType, bool, u32, u32)) -> (p: VertexAttributePointer)
        ensures
            p == (VertexAttributePointer {
                index: data_tuple.0,
                size: data_tuple.1,
                data_type: data_tuple.2,
                normalized: data_tuple.3,
                stride: data_tuple.4,
                offset: data_tuple.5,
            }),
    {
        let (index, size, data_type, normalized, stride, offset) = data_tuple;
        VertexAttributePointer { index, size, data_type, normalized, stride, offset }
    }

    /// The slot value applying this descriptor writes, when the vertex
    /// buffer `buf` is latched and the slot previously held `prev`.
    pub open spec fn applied_slot(self, prev: AttribSlot, buf: u32) -> AttribSlot {
        slot_after_pointer(
            prev,
            self.size,
            self.data_type,
            self.normalized,
            self.stride,
            self.offset,
            buf,
        )
    }

    /// Applies the descriptor to the driver: writes slot `self.index` of the
    /// bound vertex array, latching the bound vertex buffer. Must be called
    /// while both are bound; out of order, the driver refuses with an
    /// invalid-operation error and no slot changes.
    pub fn set_attrib_pointer(&self, st: &mut DriverState) -> (r: Result<(), EngineError>)
        requires
            old(st).wf(),
        ensures
            final(st).wf(),
            final(st).buffers == old(st).buffers,
            final(st).shaders == old(st).shaders,
            final(st).programs == old(st).programs,
            final(st).bound_array_buffer == old(st).bound_array_buffer,
            final(st).bound_element_array_buffer == old(st).bound_element_array_buffer,
            final(st).bound_vertex_array == old(st).bound_vertex_array,
            final(st).active_program == old(st).active_program,
            final(st).trace@ == old(st).trace@.push(
                GlCall::VertexAttribPointer(
                    self.index,
                    self.size,
                    self.data_type,
                    self.normalized,
                    self.stride,
                    self.offset,
                ),
            ),
            old(st).attrib_pointer_check(self.index, self.size) is None ==> {
                let v = old(st).bound_vertex_array as int;
                &&& r is Ok
                &&& final(st).error_flag == old(st).error_flag
                &&& final(st).vaos@.len() == old(st).vaos@.len()
                &&& forall|j: int|
                    0 <= j < old(st).vaos@.len() && j != v - 1 ==> final(st).vaos@[j] == old(
                        st,
                    ).vaos@[j]
                &&& final(st).vaos@[v - 1].alive == old(st).vaos@[v - 1].alive
                &&& final(st).vaos@[v - 1].attribs@ == old(st).vaos@[v - 1].attribs@.update(
                    self.index as int,
                    self.applied_slot(
                        old(st).vaos@[v - 1].attribs@[self.index as int],
                        old(st).bound_array_buffer,
                    ),
                )
            },
            old(st).attrib_pointer_check(self.index, self.size) is Some ==> {
                let kind = old(st).attrib_pointer_check(self.index, self.size)->Some_0;
                &&& r == Err::<(), EngineError>(EngineError::Driver(kind))
                &&& final(st).vaos == old(st).vaos
                &&& final(st).error_flag == crate::driver_state::flag_after(
                    old(st).error_flag,
                    kind,
                )
            },
    {
        st.vertex_attrib_pointer(
            self.index,
            self.size,
            self.data_type,
            self.normalized,
            self.stride,
            self.offset,
        )
    }

    /// Enables attribute slot `self.index` of the bound vertex array, so
    /// the shader stage will read it; a populated slot that is never
    /// enabled is silently ignored by the driver.
    pub fn enable_vertex_attrib_ptr(&self, st: &mut DriverState) -> (r: Result<(), EngineError>)
        requires
            old(st).wf(),
        ensures
            final(st).wf(),
            final(st).buffers == old(st).buffers,
            final(st).shaders == old(st).shaders,
            final(st).programs == old(st).programs,
            final(st).bound_array_buffer == old(st).bound_array_buffer,
            final(st).bound_element_array_buffer == old(st).bound_element_array_buffer,
            final(st).bound_vertex_array == old(st).bound_vertex_array,
            final(st).active_program == old(st).active_program,
            final(st).trace@ == old(st).trace@.push(GlCall::EnableVertexAttribArray(self.index)),
            old(st).attrib_enable_check(self.index) is None ==> {
                let v = old(st).bound_vertex_array as int;
                &&& r is Ok
                &&& final(st).error_flag == old(st).error_flag
                &&& final(st).vaos@.len() == old(st).vaos@.len()
                &&& forall|j: int|
                    0 <= j < old(st).vaos@.len() && j != v - 1 ==> final(st).vaos@[j] == old(
                        st,
                    ).vaos@[j]
                &&& final(st).vaos@[v - 1].alive == old(st).vaos@[v - 1].alive
                &&& final(st).vaos@[v - 1].attribs@ == old(st).vaos@[v - 1].attribs@.update(
                    self.index as int,
                    (AttribSlot {
                        enabled: true,
                        ..old(st).vaos@[v - 1].attribs@[self.index as int]
                    }),
                )
            },
            old(st).attrib_enable_check(self.index) is Some ==> {
                let kind = old(st).attrib_enable_check(self.index)->Some_0;
                &&& r == Err::<(), EngineError>(EngineError::Driver(kind))
                &&& final(st).vaos == old(st).vaos
                &&& final(st).error_flag == crate::driver_state::flag_after(
                    old(st).error_flag,
                    kind,
                )
            },
    {
        st.enable_vertex_attrib_array(self.index)
    }
}

/// Some descriptor of the list targets attribute slot `k`.
pub open spec fn targets_slot(list: Seq<VertexAttributePointer>, k: int) -> bool {
    exists|i: int| 0 <= i < list.len() && (#[trigger] list[i]).index == k
}

/// The enable commands issued for the list, in storage order.
pub open spec fn enable_calls(list: Seq<VertexAttributePointer>) -> Seq<GlCall> {
    list.map_values(|p: VertexAttributePointer| GlCall::EnableVertexAttribArray(p.index))
}

/// A driver vertex array aggregating an ordered list of attribute
/// descriptors. Descriptor order is append order and fixes the enable
/// order, not rendering semantics: any order is valid as long as each
/// descriptor's `index` matches the shader input it targets.
#[derive(Debug)]
pub struct VertexArrayObject {
    pub id: u32,
    pub attrib_pointers: Vec<VertexAttributePointer>,
}

impl VertexArrayObject {
    /// The object names a live vertex array of `st`.
    pub open spec fn valid(self, st: DriverState) -> bool {
        st.vao_live(self.id)
    }

    /// Every stored descriptor targets a slot the driver has.
    pub open spec fn descriptors_in_range(self) -> bool {
        forall|j: int|
            0 <= j < self.attrib_pointers@.len() ==> (#[trigger] self.attrib_pointers@[j]).index
                < MAX_VERTEX_ATTRIBS
    }

    /// Allocates a driver vertex array and stores the descriptor list; no
    /// driver attribute state is touched, so every slot keeps its default.
    pub fn new(st: &mut DriverState, attrib_pointers: Vec<VertexAttributePointer>) -> (v:
        VertexArrayObject)
        requires
            old(st).wf(),
            old(st).vaos@.len() < u32::MAX,
        ensures
            final(st).wf(),
            v.id == old(st).vaos@.len() + 1,
            v.attrib_pointers == attrib_pointers,
            v.valid(*final(st)),
            final(st).vaos@.len() == old(st).vaos@.len() + 1,
            forall|i: int|
                0 <= i < old(st).vaos@.len() ==> final(st).vaos@[i] == old(st).vaos@[i],
            final(st).attrib_table(v.id).len() == MAX_VERTEX_ATTRIBS,
            forall|k: int|
                0 <= k < MAX_VERTEX_ATTRIBS ==> final(st).attrib_table(v.id)[k]
                    == AttribSlot::spec_default(),
            final(st).buffers == old(st).buffers,
            final(st).shaders == old(st).shaders,
            final(st).programs == old(st).programs,
            final(st).bound_array_buffer == old(st).bound_array_buffer,
            final(st).bound_element_array_buffer == old(st).bound_element_array_buffer,
            final(st).bound_vertex_array == old(st).bound_vertex_array,
            final(st).active_program == old(st).active_program,
            final(st).error_flag == old(st).error_flag,
            final(st).trace@ == old(st).trace@.push(GlCall::GenVertexArray(v.id)),
    {
        let id = st.gen_vertex_array();
        VertexArrayObject { id, attrib_pointers }
    }

    /// Appends a descriptor to the stored list without touching driver
    /// state.
    pub fn add_attrib_pointer(&mut self, attrib_pointer: VertexAttributePointer)
        ensures
            final(self).id == old(self).id,
            final(self).attrib_pointers@ == old(self).attrib_pointers@.push(attrib_pointer),
    {
        self.attrib_pointers.push(attrib_pointer);
    }

    /// Applies the descriptor at storage position `index` to the driver.
    /// A position the stored list does not hold is refused with
    /// [`EngineError::AttribIndexOutOfRange`] and no driver call is made;
    /// otherwise this is [`VertexAttributePointer::set_attrib_pointer`] of
    /// that descriptor, and each descriptor only touches its own slot.
    pub fn set_attrib_pointer(&self, st: &mut DriverState, index: usize) -> (r: Result<
        (),
        EngineError,
    >)
        requires
            old(st).wf(),
        ensures
            final(st).wf(),
            index >= self.attrib_pointers@.len() ==> r == Err::<(), EngineError>(
                EngineError::AttribIndexOutOfRange,
            ) && *final(st) == *old(st),
            index < self.attrib_pointers@.len() ==> {
                let p = self.attrib_pointers@[index as int];
                &&& final(st).buffers == old(st).buffers
                &&& final(st).shaders == old(st).shaders
                &&& final(st).programs == old(st).programs
                &&& final(st).bound_array_buffer == old(st).bound_array_buffer
                &&& final(st).bound_element_array_buffer == old(st).bound_element_array_buffer
                &&& final(st).bound_vertex_array == old(st).bound_vertex_array
                &&& final(st).active_program == old(st).active_program
                &&& final(st).trace@ == old(st).trace@.push(
                    GlCall::VertexAttribPointer(
                        p.index,
                        p.size,
                        p.data_type,
                        p.normalized,
                        p.stride,
                        p.offset,
                    ),
                )
                &&& old(st).attrib_pointer_check(p.index, p.size) is None ==> {
                    let v = old(st).bound_vertex_array as int;
                    &&& r is Ok
                    &&& final(st).error_flag == old(st).error_flag
                    &&& final(st).vaos@.len() == old(st).vaos@.len()
                    &&& forall|j: int|
                        0 <= j < old(st).vaos@.len() && j != v - 1 ==> final(st).vaos@[j] == old(
                            st,
                        ).vaos@[j]
                    &&& final(st).vaos@[v - 1].alive == old(st).vaos@[v - 1].alive
                    &&& final(st).vaos@[v - 1].attribs@ == old(st).vaos@[v - 1].attribs@.update(
                        p.index as int,
                        p.applied_slot(
                            old(st).vaos@[v - 1].attribs@[p.index as int],
                            old(st).bound_array_buffer,
                        ),
                    )
                }
                &&& old(st).attrib_pointer_check(p.index, p.size) is Some ==> {
                    let kind = old(st).attrib_pointer_check(p.index, p.size)->Some_0;
                    &&& r == Err::<(), EngineError>(EngineError::Driver(kind))
                    &&& final(st).vaos == old(st).vaos
                    &&& final(st).error_flag == crate::driver_state::flag_after(
                        old(st).error_flag,
                        kind,
                    )
                }
            },
    {
        if index >= self.attrib_pointers.len() {
            return Err(EngineError::AttribIndexOutOfRange);
        }
        self.attrib_pointers[index].set_attrib_pointer(st)
    }

    /// Enables every stored descriptor's slot, in storage order. With no
    /// vertex array bound the driver refuses each enable and the first
    /// refusal is returned; the commands are issued either way.
    pub fn enable_attrib_pointers(&self, st: &mut DriverState) -> (r: Result<(), EngineError>)
        requires
            old(st).wf(),
            self.descriptors_in_range(),
        ensures
            final(st).wf(),
            final(st).buffers == old(st).buffers,
            final(st).shaders == old(st).shaders,
            final(st).programs == old(st).programs,
            final(st).bound_array_buffer == old(st).bound_array_buffer,
            final(st).bound_element_array_buffer == old(st).bound_element_array_buffer,
            final(st).bound_vertex_array == old(st).bound_vertex_array,
            final(st).active_program == old(st).active_program,
            final(st).trace@ == old(st).trace@ + enable_calls(self.attrib_pointers@),
            old(st).bound_vertex_array == 0 ==> {
                &&& final(st).vaos == old(st).vaos
                &&& (self.attrib_pointers@.len() == 0 ==> r is Ok && final(st).error_flag == old(
                    st,
                ).error_flag)
                &&& (self.attrib_pointers@.len() > 0 ==> r == Err::<(), EngineError>(
                    EngineError::Driver(GlErrorKind::InvalidOperation),
                ) && final(st).error_flag == crate::driver_state::flag_after(
                    old(st).error_flag,
                    GlErrorKind::InvalidOperation,
                ))
            },
            old(st).bound_vertex_array != 0 ==> {
                let v = old(st).bound_vertex_array as int;
                &&& r is Ok
                &&& final(st).error_flag == old(st).error_flag
                &&& final(st).vaos@.len() == old(st).vaos@.len()
                &&& forall|j: int|
                    0 <= j < old(st).vaos@.len() && j != v - 1 ==> final(st).vaos@[j] == old(
                        st,
                    ).vaos@[j]
                &&& final(st).vaos@[v - 1].alive == old(st).vaos@[v - 1].alive
                &&& final(st).vaos@[v - 1].attribs@.len() == MAX_VERTEX_ATTRIBS
                &&& forall|k: int|
                    #![trigger final(st).vaos@[old(st).bound_vertex_array as int - 1].attribs@[k]]
                    0 <= k < MAX_VERTEX_ATTRIBS ==> final(st).vaos@[v - 1].attribs@[k]
                        == (AttribSlot {
                        enabled: old(st).vaos@[v - 1].attribs@[k].enabled || targets_slot(
                            self.attrib_pointers@,
                            k,
                        ),
                        ..old(st).vaos@[v - 1].attribs@[k]
                    })
            },
    {
        let ghost list = self.attrib_pointers@;
        let n = self.attrib_pointers.len();
        if st.bound_vertex_array == 0 {
            let mut i: usize = 0;
            while i < n
                invariant
                    old(st).wf(),
                    old(st).bound_vertex_array == 0,
                    list == self.attrib_pointers@,
                    forall|j: int|
                        0 <= j < list.len() ==> (#[trigger] list[j]).index < MAX_VERTEX_ATTRIBS,
                    n == list.len(),
                    i <= n,
                    st.wf(),
                    st.buffers == old(st).buffers,
                    st.vaos == old(st).vaos,
                    st.shaders == old(st).shaders,
                    st.programs == old(st).programs,
                    st.bound_array_buffer == old(st).bound_array_buffer,
                    st.bound_element_array_buffer == old(st).bound_element_array_buffer,
                    st.bound_vertex_array == 0,
                    st.active_program == old(st).active_program,
                    st.trace@ == old(st).trace@ + enable_calls(list.take(i as int)),
                    i == 0 ==> st.error_flag == old(st).error_flag,
                    i > 0 ==> st.error_flag == crate::driver_state::flag_after(
                        old(st).error_flag,
                        GlErrorKind::InvalidOperation,
                    ),
                decreases n - i,
            {
                let p = self.attrib_pointers[i];
                let _refused = st.enable_vertex_attrib_array(p.index);
                proof {
                    assert(enable_calls(list.take(i as int + 1)) =~= enable_calls(
                        list.take(i as int),
                    ).push(GlCall::EnableVertexAttribArray(p.index)));
                    assert(st.trace@ =~= old(st).trace@ + enable_calls(list.take(i as int + 1)));
                }
                i += 1;
            }
            proof {
                assert(list.take(n as int) =~= list);
            }
            if n > 0 {
                Err(EngineError::Driver(GlErrorKind::InvalidOperation))
            } else {
                Ok(())
            }
        } else {
            let ghost v = old(st).bound_vertex_array as int;
            let mut i: usize = 0;
            while i < n
                invariant
                    old(st).wf(),
                    old(st).bound_vertex_array != 0,
                    v == old(st).bound_vertex_array as int,
                    list == self.attrib_pointers@,
                    forall|j: int|
                        0 <= j < list.len() ==> (#[trigger] list[j]).index < MAX_VERTEX_ATTRIBS,
                    n == list.len(),
                    i <= n,
                    st.wf(),
                    st.buffers == old(st).buffers,
                    st.shaders == old(st).shaders,
                    st.programs == old(st).programs,
                    st.bound_array_buffer == old(st).bound_array_buffer,
                    st.bound_element_array_buffer == old(st).bound_element_array_buffer,
                    st.bound_vertex_array == old(st).bound_vertex_array,
                    st.active_program == old(st).active_program,
                    st.error_flag == old(st).error_flag,
                    st.trace@ == old(st).trace@ + enable_calls(list.take(i as int)),
                    st.vaos@.len() == old(st).vaos@.len(),
                    forall|j: int|
                        0 <= j < old(st).vaos@.len() && j != v - 1 ==> st.vaos@[j] == old(
                            st,
                        ).vaos@[j],
                    st.vaos@[v - 1].alive == old(st).vaos@[v - 1].alive,
                    st.vaos@[v - 1].attribs@.len() == MAX_VERTEX_ATTRIBS,
                    forall|k: int|
                        #![trigger st.vaos@[v - 1].attribs@[k]]
                        0 <= k < MAX_VERTEX_ATTRIBS ==> st.vaos@[v - 1].attribs@[k]
                            == (AttribSlot {
                            enabled: old(st).vaos@[v - 1].attribs@[k].enabled || targets_slot(
                                list.take(i as int),
                                k,
                            ),
                            ..old(st).vaos@[v - 1].attribs@[k]
                        }),
                decreases n - i,
            {
                let ghost table_before = st.vaos@[v - 1].attribs@;
                let p = self.attrib_pointers[i];
                let _enabled = st.enable_vertex_attrib_array(p.index);
                proof {
                    let tail = list.take(i as int + 1);
                    let init = list.take(i as int);
                    assert(tail[i as int] == list[i as int]);
                    assert(enable_calls(tail) =~= enable_calls(init).push(
                        GlCall::EnableVertexAttribArray(p.index),
                    ));
                    assert(st.trace@ =~= old(st).trace@ + enable_calls(tail));
                    assert(targets_slot(tail, p.index as int));
                    assert forall|k: int|
                        0 <= k < MAX_VERTEX_ATTRIBS && k != p.index implies targets_slot(tail, k)
                        == targets_slot(init, k) by {
                        if targets_slot(tail, k) {
                            let j = choose|j: int|
                                0 <= j < tail.len() && (#[trigger] tail[j]).index == k;
                            if j == i as int {
                                assert(tail[j].index == p.index);
                            } else {
                                assert(init[j] == tail[j]);
                                assert(targets_slot(init, k));
                            }
                        }
                        if targets_slot(init, k) {
                            let j = choose|j: int|
                                0 <= j < init.len() && (#[trigger] init[j]).index == k;
                            assert(tail[j] == init[j]);
                            assert(targets_slot(tail, k));
                        }
                    }
                    assert forall|k: int|
                        #![trigger st.vaos@[v - 1].attribs@[k]]
                        0 <= k < MAX_VERTEX_ATTRIBS implies st.vaos@[v
                        - 1].attribs@[k] == (AttribSlot {
                        enabled: old(st).vaos@[v - 1].attribs@[k].enabled || targets_slot(tail, k),
                        ..old(st).vaos@[v - 1].attribs@[k]
                    }) by {
                        assert(st.vaos@[v - 1].attribs@ == table_before.update(
                            p.index as int,
                            (AttribSlot { enabled: true, ..table_before[p.index as int] }),
                        ));
                    }
                }
                i += 1;
            }
            proof {
                assert(list.take(n as int) =~= list);
            }
            Ok(())
        }
    }

    /// Binds the vertex array. Rebinding an already-bound vertex array
    /// repeats the same driver call and has no further effect.
    pub fn bind(&self, st: &mut DriverState)
        requires
            old(st).wf(),
            self.valid(*old(st)),
        ensures
            final(st).wf(),
            self.valid(*final(st)),
            final(st).bound_vertex_array == self.id,
            final(st).buffers == old(st).buffers,
            final(st).vaos == old(st).vaos,
            final(st).shaders == old(st).shaders,
            final(st).programs == old(st).programs,
            final(st).bound_array_buffer == old(st).bound_array_buffer,
            final(st).bound_element_array_buffer == old(st).bound_element_array_buffer,
            final(st).active_program == old(st).active_program,
            final(st).error_flag == old(st).error_flag,
            final(st).trace@ == old(st).trace@.push(GlCall::BindVertexArray(self.id)),
    {
        st.bind_vertex_array(self.id);
    }

    /// Rebinds the vertex-array slot to the null handle, leaving it empty
    /// whatever was bound. Repeated calls repeat the same driver call and
    /// have no further effect.
    pub fn unbind(&self, st: &mut DriverState)
        requires
            old(st).wf(),
        ensures
            final(st).wf(),
            final(st).bound_vertex_array == 0,
            final(st).buffers == old(st).buffers,
            final(st).vaos == old(st).vaos,
            final(st).shaders == old(st).shaders,
            final(st).programs == old(st).programs,
            final(st).bound_array_buffer == old(st).bound_array_buffer,
            final(st).bound_element_array_buffer == old(st).bound_element_array_buffer,
            final(st).active_program == old(st).active_program,
            final(st).error_flag == old(st).error_flag,
            final(st).trace@ == old(st).trace@.push(GlCall::BindVertexArray(0)),
    {
        st.bind_vertex_array(0);
    }

    /// Releases the vertex array at the end of its owning scope: unbinds,
    /// then deletes the driver handle, exactly once. No driver error is
    /// raised.
    pub fn release(self, st: &mut DriverState)
        requires
            old(st).wf(),
            self.valid(*old(st)),
        ensures
            final(st).wf(),
            !final(st).vao_live(self.id),
            final(st).vaos@ == old(st).vaos@.update(
                self.id as int - 1,
                (VaoRecord { alive: false, ..old(st).vaos@[self.id as int - 1] }),
            ),
            final(st).bound_vertex_array == 0,
            final(st).buffers == old(st).buffers,
            final(st).shaders == old(st).shaders,
            final(st).programs == old(st).programs,
            final(st).bound_array_buffer == old(st).bound_array_buffer,
            final(st).bound_element_array_buffer == old(st).bound_element_array_buffer,
            final(st).active_program == old(st).active_program,
            final(st).error_flag == old(st).error_flag,
            final(st).trace@ == old(st).trace@ + seq![
                GlCall::BindVertexArray(0),
                GlCall::DeleteVertexArray(self.id),
            ],
    {
        self.unbind(st);
        st.delete_vertex_array(self.id);
        proof {
            assert(st.trace@ =~= old(st).trace@ + seq![
                GlCall::BindVertexArray(0),
                GlCall::DeleteVertexArray(self.id),
            ]);
        }
    }
}

/// One descriptor application: the slot the descriptor targets is
/// rewritten exactly as [`VertexAttributePointer::set_attrib_pointer`]
/// writes it, latching the vertex buffer `buf`.
pub open spec fn apply_one(
    table: Seq<AttribSlot>,
    p: VertexAttributePointer,
    buf: u32,
) -> Seq<AttribSlot> {
    table.update(p.index as int, p.applied_slot(table[p.index as int], buf))
}

/// Applies the descriptors at storage positions `order`, in that order.
pub open spec fn apply_in_order(
    table: Seq<AttribSlot>,
    descs: Seq<VertexAttributePointer>,
    order: Seq<int>,
    buf: u32,
) -> Seq<AttribSlot>
    decreases order.len(),
{
    if order.len() == 0 {
        table
    } else {
        apply_in_order(apply_one(table, descs[order[0]], buf), descs, order.drop_first(), buf)
    }
}

/// Storage order itself: positions `0` up to `n`.
pub open spec fn storage_order(n: int) -> Seq<int> {
    Seq::new(n as nat, |i: int| i)
}

/// Some applied position targets slot `k`.
pub open spec fn targeted_by(
    descs: Seq<VertexAttributePointer>,
    order: Seq<int>,
    k: int,
) -> bool {
    exists|j: int| 0 <= j < order.len() && descs[#[trigger] order[j]].index == k
}

proof fn lemma_same_index_same_position(descs: Seq<VertexAttributePointer>, a: int, b: int)
    requires
        0 <= a < descs.len(),
        0 <= b < descs.len(),
        descs[a].index == descs[b].index,
        forall|i1: int, i2: int|
            0 <= i1 < i2 < descs.len() ==> (#[trigger] descs[i1]).index != (
            #[trigger] descs[i2]).index,
    ensures
        a == b,
{
    if a < b {
        assert(descs[a].index != descs[b].index);
    }
    if b < a {
        assert(descs[b].index != descs[a].index);
    }
}

proof fn lemma_apply_in_order_characterized(
    table: Seq<AttribSlot>,
    descs: Seq<VertexAttributePointer>,
    order: Seq<int>,
    buf: u32,
)
    requires
        forall|j: int| 0 <= j < order.len() ==> 0 <= #[trigger] order[j] < descs.len(),
        forall|i: int| 0 <= i < descs.len() ==> 0 <= (#[trigger] descs[i]).index < table.len(),
        forall|i1: int, i2: int|
            0 <= i1 < i2 < descs.len() ==> (#[trigger] descs[i1]).index != (
            #[trigger] descs[i2]).index,
    ensures
        apply_in_order(table, descs, order, buf).len() == table.len(),
        forall|k: int|
            #![trigger apply_in_order(table, descs, order, buf)[k]]
            0 <= k < table.len() && !targeted_by(descs, order, k) ==> apply_in_order(
                table,
                descs,
                order,
                buf,
            )[k] == table[k],
        forall|j: int|
            0 <= j < order.len() ==> apply_in_order(table, descs, order, buf)[descs[
                #[trigger] order[j]].index as int] == descs[order[j]].applied_slot(
                table[descs[order[j]].index as int],
                buf,
            ),
    decreases order.len(),
{
    if order.len() > 0 {
        let d0 = descs[order[0]];
        let t1 = apply_one(table, d0, buf);
        let rest = order.drop_first();
        assert(t1.len() == table.len());
        assert forall|j: int| 0 <= j < rest.len() implies 0 <= #[trigger] rest[j]
            < descs.len() by {
            assert(rest[j] == order[j + 1]);
        }
        lemma_apply_in_order_characterized(t1, descs, rest, buf);
        let res = apply_in_order(table, descs, order, buf);
        assert(res == apply_in_order(t1, descs, rest, buf));
        assert forall|k: int|
            0 <= k < table.len() && !targeted_by(descs, order, k) implies #[trigger] res[k]
            == table[k] by {
            if targeted_by(descs, rest, k) {
                let j = choose|j: int|
                    0 <= j < rest.len() && descs[#[trigger] rest[j]].index == k;
                assert(rest[j] == order[j + 1]);
                assert(descs[order[j + 1]].index == k);
                assert(targeted_by(descs, order, k));
            }
            if d0.index == k {
                assert(descs[order[0]].index == k);
                assert(targeted_by(descs, order, k));
            }
            assert(apply_in_order(t1, descs, rest, buf)[k] == t1[k]);
            assert(t1[k] == table[k]);
        }
        assert forall|j: int| 0 <= j < order.len() implies res[descs[
            #[trigger] order[j]].index as int] == descs[order[j]].applied_slot(
            table[descs[order[j]].index as int],
            buf,
        ) by {
            let p = order[j];
            let k = descs[p].index as int;
            assert(d0.applied_slot(d0.applied_slot(table[k], buf), buf) == d0.applied_slot(
                table[k],
                buf,
            ));
            if j == 0 {
                if targeted_by(descs, rest, k) {
                    let j2 = choose|j2: int|
                        0 <= j2 < rest.len() && descs[#[trigger] rest[j2]].index == k;
                    assert(rest[j2] == order[j2 + 1]);
                    lemma_same_index_same_position(descs, rest[j2], p);
                    assert(apply_in_order(t1, descs, rest, buf)[k] == descs[
                        rest[j2]].applied_slot(t1[k], buf));
                    assert(t1[k] == d0.applied_slot(table[k], buf));
                } else {
                    assert(apply_in_order(t1, descs, rest, buf)[k] == t1[k]);
                    assert(t1[k] == d0.applied_slot(table[k], buf));
                }
            } else {
                assert(rest[j - 1] == order[j]);
                assert(apply_in_order(t1, descs, rest, buf)[k] == descs[rest[j
                    - 1]].applied_slot(t1[k], buf));
                if d0.index as int == k {
                    lemma_same_index_same_position(descs, order[0], p);
                    assert(t1[k] == d0.applied_slot(table[k], buf));
                } else {
                    assert(t1[k] == table[k]);
                }
            }
        }
    }
}

/// Round-trip law: constructing a vertex array over a descriptor list with
/// pairwise distinct slot indices and applying each descriptor once, in
/// any order, produces attribute state equal to applying them in storage
/// order — each descriptor only touches its own slot, so the order cannot
/// matter.
pub proof fn lemma_set_attrib_pointer_order_irrelevant(
    table: Seq<AttribSlot>,
    descs: Seq<VertexAttributePointer>,
    order: Seq<int>,
    buf: u32,
)
    requires
        forall|j: int| 0 <= j < order.len() ==> 0 <= #[trigger] order[j] < descs.len(),
        forall|i: int| 0 <= i < descs.len() ==> order.contains(i),
        forall|i: int| 0 <= i < descs.len() ==> 0 <= (#[trigger] descs[i]).index < table.len(),
        forall|i1: int, i2: int|
            0 <= i1 < i2 < descs.len() ==> (#[trigger] descs[i1]).index != (
            #[trigger] descs[i2]).index,
    ensures
        apply_in_order(table, descs, order, buf) == apply_in_order(
            table,
            descs,
            storage_order(descs.len() as int),
            buf,
        ),
{
    let ident = storage_order(descs.len() as int);
    assert forall|j: int| 0 <= j < ident.len() implies 0 <= #[trigger] ident[j]
        < descs.len() by {}
    lemma_apply_in_order_characterized(table, descs, order, buf);
    lemma_apply_in_order_characterized(table, descs, ident, buf);
    let lhs = apply_in_order(table, descs, order, buf);
    let rhs = apply_in_order(table, descs, ident, buf);
    assert forall|k: int| 0 <= k < table.len() implies lhs[k] == rhs[k] by {
        if targeted_by(descs, order, k) {
            let j = choose|j: int| 0 <= j < order.len() && descs[#[trigger] order[j]].index == k;
            let p = order[j];
            assert(lhs[k] == descs[p].applied_slot(table[k], buf));
            assert(ident[p] == p);
            assert(rhs[descs[ident[p]].index as int] == descs[ident[p]].applied_slot(
                table[descs[ident[p]].index as int],
                buf,
            ));
            assert(rhs[k] == descs[p].applied_slot(table[k], buf));
        } else {
            if targeted_by(descs, ident, k) {
                let j = choose|j: int|
                    0 <= j < ident.len() && descs[#[trigger] ident[j]].index == k;
                assert(ident[j] == j);
                assert(order.contains(j));
                let j2 = choose|j2: int| 0 <= j2 < order.len() && order[j2] == j;
                assert(descs[order[j2]].index == k);
                assert(targeted_by(descs, order, k));
            }
            assert(lhs[k] == table[k]);
            assert(rhs[k] == table[k]);
        }
    }
    assert(lhs =~= rhs);
}

} // verus!
