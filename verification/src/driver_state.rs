//! An explicit model of the graphics driver's observable state.
//!
//! The driver offers no compile-time safety: binding, upload, compile and
//! delete calls mutate hidden global state and misuse merely raises an error
//! flag, or nothing at all. [`DriverState`] makes that hidden state explicit:
//! the tables of objects the driver has allocated, the single current-binding
//! slot per object category, the pending error flag, and the trace of
//! commands issued so far. Every resource type of this crate threads a
//! `DriverState` through its operations, so each contract states exactly what
//! a call does to the driver.
//!
//! Handles are allocated consecutively from 1; handle `h` names the record at
//! index `h - 1` of its table, and `0` is the null handle. Deleting a record
//! marks it dead rather than removing it, as the driver never reuses a name
//! this model has handed out.
//!
//! Verdicts only the driver can decide — whether a compilation or a link
//! succeeded, the diagnostic log, which uniform names resolve to which
//! locations — enter the model as explicit report values; the unverified
//! front end obtains them from the real driver, and every contract here holds
//! whatever they are.

use vstd::prelude::*;
use vstd::std_specs::vec::vec_index_mut;

use crate::gl_loading::{BufferType, ElementType};
use crate::opengl_utils::{EngineError, GlErrorKind};
use crate::shader_management::ShaderType;

verus! {

/// The number of attribute slots each vertex array holds; the driver
/// guarantees at least this many.
pub const MAX_VERTEX_ATTRIBS: usize = 16;

/// One state-mutating command issued to the driver, as recorded in
/// [`DriverState::trace`]. Queries (status, log and location lookups, error
/// checks) are not traced.
#[derive(Clone, Copy, Debug, PartialEq, Eq, Structural)]
pub enum GlCall {
    GenBuffer(u32),
    BindBuffer(BufferType, u32),
    /// Upload into the buffer bound at the target: the element count is
    /// recorded; the words themselves stay in the buffer's record.
    BufferData(BufferType, usize),
    DeleteBuffer(u32),
    GenVertexArray(u32),
    BindVertexArray(u32),
    DeleteVertexArray(u32),
    /// Configure an attribute slot: index, component count, component type,
    /// normalized, stride in bytes, offset in bytes.
    VertexAttribPointer(u32, u32, ElementType, bool, u32, u32),
    EnableVertexAttribArray(u32),
    CreateShader(ShaderType, u32),
    ShaderSource(u32),
    CompileShader(u32),
    DeleteShader(u32),
    CreateProgram(u32),
    DeleteProgram(u32),
    AttachShader(u32, u32),
    DetachShader(u32, u32),
    LinkProgram(u32),
    UseProgram(u32),
    /// Set a three-component uniform: location, then the components as bit
    /// patterns.
    Uniform3f(i32, u32, u32, u32),
    Uniform4f(i32, u32, u32, u32, u32),
    /// Draw this many indices from the bound index buffer.
    DrawElements(usize),
}

/// One attribute slot of a vertex array, as the driver keeps it: the layout
/// parameters latched by the most recent configuration, the vertex buffer
/// that was bound when it was configured, and whether the slot is enabled.
#[derive(Clone, Copy, Debug, PartialEq, Eq, Structural)]
pub struct AttribSlot {
    pub enabled: bool,
    pub size: u32,
    pub elem: ElementType,
    pub normalized: bool,
    pub stride: u32,
    pub offset: u32,
    pub buffer: u32,
}

impl AttribSlot {
    /// The value every slot holds before it is first configured, as the
    /// driver documents its defaults.
    pub open spec fn spec_default() -> AttribSlot {
        AttribSlot {
            enabled: false,
            size: 4,
            elem: ElementType::Float,
            normalized: false,
            stride: 0,
            offset: 0,
            buffer: 0,
        }
    }
}

impl Default for AttribSlot {
    fn default() -> (slot: AttribSlot)
        ensures
            slot == AttribSlot::spec_default(),
    {
        AttribSlot {
            enabled: false,
            size: 4,
            elem: ElementType::Float,
            normalized: false,
            stride: 0,
            offset: 0,
            buffer: 0,
        }
    }
}

/// A buffer object's record: whether the name is still live, and the words
/// uploaded into it.
#[derive(Debug, PartialEq, Eq)]
pub struct BufferRecord {
    pub alive: bool,
    pub data: Vec<u32>,
}

/// A vertex array's record: whether the name is still live, and its table of
/// [`MAX_VERTEX_ATTRIBS`] attribute slots.
#[derive(Debug, PartialEq, Eq)]
pub struct VaoRecord {
    pub alive: bool,
    pub attribs: Vec<AttribSlot>,
}

/// A shader object's record: the stage it was created for, the source
/// submitted to it, and the compile status and log the driver reported.
#[derive(Debug, PartialEq, Eq)]
pub struct ShaderRecord {
    pub alive: bool,
    pub stage: ShaderType,
    pub source: String,
    pub compiled: bool,
    pub log: String,
}

/// A shader program's record: the handles attached to it, the link status
/// and log the driver reported, and the uniform name-to-location table the
/// link established.
#[derive(Debug, PartialEq, Eq)]
pub struct ProgramRecord {
    pub alive: bool,
    pub attached: Vec<u32>,
    pub linked: bool,
    pub log: String,
    pub uniforms: Vec<(String, i32)>,
}

/// When the driver raises an error while another is already pending, the
/// pending one is kept: the flag reports the first error since it was last
/// queried.
pub open spec fn flag_after(pre: Option<GlErrorKind>, kind: GlErrorKind) -> Option<GlErrorKind> {
    if pre is None {
        Some(kind)
    } else {
        pre
    }
}

/// The driver's observable state. See the module documentation.
#[derive(Debug)]
pub struct DriverState {
    pub buffers: Vec<BufferRecord>,
    pub vaos: Vec<VaoRecord>,
    pub shaders: Vec<ShaderRecord>,
    pub programs: Vec<ProgramRecord>,
    /// The buffer bound at the vertex-data target, or 0.
    pub bound_array_buffer: u32,
    /// The buffer bound at the index-data target, or 0.
    pub bound_element_array_buffer: u32,
    /// The bound vertex array, or 0.
    pub bound_vertex_array: u32,
    /// The program activated for draw calls, or 0.
    pub active_program: u32,
    /// The first error raised since the flag was last queried.
    pub error_flag: Option<GlErrorKind>,
    /// Every state-mutating command issued so far, in order.
    pub trace: Vec<GlCall>,
}

impl DriverState {
    /// `h` names a live buffer object.
    pub open spec fn buffer_live(self, h: u32) -> bool {
        &&& h != 0
        &&& h as int <= self.buffers@.len()
        &&& self.buffers@[h as int - 1].alive
    }

    /// `h` names a live vertex array.
    pub open spec fn vao_live(self, h: u32) -> bool {
        &&& h != 0
        &&& h as int <= self.vaos@.len()
        &&& self.vaos@[h as int - 1].alive
    }

    /// `h` names a live shader object.
    pub open spec fn shader_live(self, h: u32) -> bool {
        &&& h != 0
        &&& h as int <= self.shaders@.len()
        &&& self.shaders@[h as int - 1].alive
    }

    /// `h` names a live program.
    pub open spec fn program_live(self, h: u32) -> bool {
        &&& h != 0
        &&& h as int <= self.programs@.len()
        &&& self.programs@[h as int - 1].alive
    }

    /// The handle in the binding slot of the given buffer target.
    pub open spec fn buffer_binding(self, target: BufferType) -> u32 {
        match target {
            BufferType::ArrayBuffer => self.bound_array_buffer,
            BufferType::ElementArrayBuffer => self.bound_element_array_buffer,
        }
    }

    /// Well-formedness: handles fit in the driver's handle type, every
    /// binding slot holds the null handle or a live object, and every vertex
    /// array has its full table of attribute slots.
    pub open spec fn wf(self) -> bool {
        &&& self.buffers@.len() <= u32::MAX
        &&& self.vaos@.len() <= u32::MAX
        &&& self.shaders@.len() <= u32::MAX
        &&& self.programs@.len() <= u32::MAX
        &&& (self.bound_array_buffer == 0 || self.buffer_live(self.bound_array_buffer))
        &&& (self.bound_element_array_buffer == 0 || self.buffer_live(
            self.bound_element_array_buffer,
        ))
        &&& (self.bound_vertex_array == 0 || self.vao_live(self.bound_vertex_array))
        &&& (self.active_program == 0 || self.program_live(self.active_program))
        &&& forall|i: int|
            0 <= i < self.vaos@.len() ==> (#[trigger] self.vaos@[i]).attribs@.len()
                == MAX_VERTEX_ATTRIBS
    }

    /// A fresh context: no objects allocated, nothing bound, no error
    /// pending, no commands issued.
    pub fn new() -> (st: DriverState)
        ensures
            st.wf(),
            st.buffers@.len() == 0,
            st.vaos@.len() == 0,
            st.shaders@.len() == 0,
            st.programs@.len() == 0,
            st.bound_array_buffer == 0,
            st.bound_element_array_buffer == 0,
            st.bound_vertex_array == 0,
            st.active_program == 0,
            st.error_flag is None,
            st.trace@.len() == 0,
    {
        DriverState {
            buffers: Vec::new(),
            vaos: Vec::new(),
            shaders: Vec::new(),
            programs: Vec::new(),
            bound_array_buffer: 0,
            bound_element_array_buffer: 0,
            bound_vertex_array: 0,
            active_program: 0,
            error_flag: None,
            trace: Vec::new(),
        }
    }

    /// Raises the error flag, keeping an already-pending error.
    fn record_error(&mut self, kind: GlErrorKind)
        ensures
            *final(self) == (DriverState {
                error_flag: flag_after(old(self).error_flag, kind),
                ..*old(self)
            }),
    {
        if self.error_flag.is_none() {
            self.error_flag = Some(kind);
        }
    }

    /// Whether `h` names a live buffer object.
    pub fn is_buffer_live(&self, h: u32) -> (r: bool)
        ensures
            r == self.buffer_live(h),
    {
        h != 0 && (h as usize) <= self.buffers.len() && self.buffers[(h - 1) as usize].alive
    }

    /// Whether `h` names a live vertex array.
    pub fn is_vao_live(&self, h: u32) -> (r: bool)
        ensures
            r == self.vao_live(h),
    {
        h != 0 && (h as usize) <= self.vaos.len() && self.vaos[(h - 1) as usize].alive
    }

    /// Whether `h` names a live shader object.
    pub fn is_shader_live(&self, h: u32) -> (r: bool)
        ensures
            r == self.shader_live(h),
    {
        h != 0 && (h as usize) <= self.shaders.len() && self.shaders[(h - 1) as usize].alive
    }

    /// Whether `h` names a live program.
    pub fn is_program_live(&self, h: u32) -> (r: bool)
        ensures
            r == self.program_live(h),
    {
        h != 0 && (h as usize) <= self.programs.len() && self.programs[(h - 1) as usize].alive
    }

    /// Allocates a fresh buffer name. The driver documents that generating a
    /// name cannot fail.
    pub fn gen_buffer(&mut self) -> (h: u32)
        requires
            old(self).wf(),
            old(self).buffers@.len() < u32::MAX,
        ensures
            final(self).wf(),
            h != 0,
            h == old(self).buffers@.len() + 1,
            !old(self).buffer_live(h),
            final(self).buffer_live(h),
            final(self).buffers@.len() == old(self).buffers@.len() + 1,
            forall|i: int|
                0 <= i < old(self).buffers@.len() ==> final(self).buffers@[i] == old(
                    self,
                ).buffers@[i],
            final(self).buffers@[h as int - 1].alive,
            final(self).buffers@[h as int - 1].data@ == Seq::<u32>::empty(),
            final(self).vaos == old(self).vaos,
            final(self).shaders == old(self).shaders,
            final(self).programs == old(self).programs,
            final(self).bound_array_buffer == old(self).bound_array_buffer,
            final(self).bound_element_array_buffer == old(self).bound_element_array_buffer,
            final(self).bound_vertex_array == old(self).bound_vertex_array,
            final(self).active_program == old(self).active_program,
            final(self).error_flag == old(self).error_flag,
            final(self).trace@ == old(self).trace@.push(GlCall::GenBuffer(h)),
    {
        let h = (self.buffers.len() as u32) + 1;
        self.buffers.push(BufferRecord { alive: true, data: Vec::new() });
        self.trace.push(GlCall::GenBuffer(h));
        h
    }

    /// Binds `h` at the given target, or rebinds the null handle. Binding a
    /// name the driver never allocated, or one already deleted, is refused
    /// with an invalid-operation error and leaves the slot unchanged.
    pub fn bind_buffer(&mut self, target: BufferType, h: u32)
        requires
            old(self).wf(),
        ensures
            final(self).wf(),
            final(self).buffers == old(self).buffers,
            final(self).vaos == old(self).vaos,
            final(self).shaders == old(self).shaders,
            final(self).programs == old(self).programs,
            final(self).bound_vertex_array == old(self).bound_vertex_array,
            final(self).active_program == old(self).active_program,
            final(self).trace@ == old(self).trace@.push(GlCall::BindBuffer(target, h)),
            final(self).bound_array_buffer == (if target is ArrayBuffer && (h == 0 || old(
                self,
            ).buffer_live(h)) {
                h
            } else {
                old(self).bound_array_buffer
            }),
            final(self).bound_element_array_buffer == (if target is ElementArrayBuffer && (h == 0
                || old(self).buffer_live(h)) {
                h
            } else {
                old(self).bound_element_array_buffer
            }),
            final(self).error_flag == (if h == 0 || old(self).buffer_live(h) {
                old(self).error_flag
            } else {
                flag_after(old(self).error_flag, GlErrorKind::InvalidOperation)
            }),
    {
        if h == 0 || self.is_buffer_live(h) {
            match target {
                BufferType::ArrayBuffer => {
                    self.bound_array_buffer = h;
                },
                BufferType::ElementArrayBuffer => {
                    self.bound_element_array_buffer = h;
                },
            }
        } else {
            self.record_error(GlErrorKind::InvalidOperation);
        }
        self.trace.push(GlCall::BindBuffer(target, h));
    }

    /// Uploads `data` into the buffer bound at the target, replacing its
    /// contents. With nothing bound there, the driver raises
    /// invalid-operation and discards the upload.
    pub fn buffer_data(&mut self, target: BufferType, data: Vec<u32>)
        requires
            old(self).wf(),
        ensures
            final(self).wf(),
            final(self).vaos == old(self).vaos,
            final(self).shaders == old(self).shaders,
            final(self).programs == old(self).programs,
            final(self).bound_array_buffer == old(self).bound_array_buffer,
            final(self).bound_element_array_buffer == old(self).bound_element_array_buffer,
            final(self).bound_vertex_array == old(self).bound_vertex_array,
            final(self).active_program == old(self).active_program,
            final(self).trace@ == old(self).trace@.push(
                GlCall::BufferData(target, data@.len() as usize),
            ),
            old(self).buffer_binding(target) == 0 ==> final(self).buffers == old(self).buffers
                && final(self).error_flag == flag_after(
                old(self).error_flag,
                GlErrorKind::InvalidOperation,
            ),
            old(self).buffer_binding(target) != 0 ==> final(self).buffers@ == old(
                self,
            ).buffers@.update(
                old(self).buffer_binding(target) as int - 1,
                (BufferRecord { alive: true, data }),
            ) && final(self).error_flag == old(self).error_flag,
    {
        let h = match target {
            BufferType::ArrayBuffer => self.bound_array_buffer,
            BufferType::ElementArrayBuffer => self.bound_element_array_buffer,
        };
        let n = data.len();
        if h == 0 {
            self.record_error(GlErrorKind::InvalidOperation);
        } else {
            let slot = vec_index_mut(&mut self.buffers, (h - 1) as usize);
            *slot = BufferRecord { alive: true, data };
        }
        self.trace.push(GlCall::BufferData(target, n));
    }

    /// Deletes a buffer name. The driver resets any binding slot holding the
    /// name to the null handle, and silently ignores the null handle and
    /// names that are not live buffers.
    pub fn delete_buffer(&mut self, h: u32)
        requires
            old(self).wf(),
        ensures
            final(self).wf(),
            final(self).vaos == old(self).vaos,
            final(self).shaders == old(self).shaders,
            final(self).programs == old(self).programs,
            final(self).bound_vertex_array == old(self).bound_vertex_array,
            final(self).active_program == old(self).active_program,
            final(self).error_flag == old(self).error_flag,
            final(self).trace@ == old(self).trace@.push(GlCall::DeleteBuffer(h)),
            old(self).buffer_live(h) ==> final(self).buffers@ == old(self).buffers@.update(
                h as int - 1,
                (BufferRecord { alive: false, ..old(self).buffers@[h as int - 1] }),
            ),
            !old(self).buffer_live(h) ==> final(self).buffers == old(self).buffers,
            final(self).bound_array_buffer == (if old(self).bound_array_buffer == h && old(
                self,
            ).buffer_live(h) {
                0u32
            } else {
                old(self).bound_array_buffer
            }),
            final(self).bound_element_array_buffer == (if old(self).bound_element_array_buffer == h
                && old(self).buffer_live(h) {
                0u32
            } else {
                old(self).bound_element_array_buffer
            }),
            !final(self).buffer_live(h),
    {
        if self.is_buffer_live(h) {
            let slot = vec_index_mut(&mut self.buffers, (h - 1) as usize);
            slot.alive = false;
            if self.bound_array_buffer == h {
                self.bound_array_buffer = 0;
            }
            if self.bound_element_array_buffer == h {
                self.bound_element_array_buffer = 0;
            }
        }
        self.trace.push(GlCall::DeleteBuffer(h));
    }
}

/// The slot value a configuration call latches: the new layout parameters
/// and the vertex buffer bound at call time, with the enable state kept.
pub open spec fn slot_after_pointer(
    prev: AttribSlot,
    size: u32,
    elem: ElementType,
    normalized: bool,
    stride: u32,
    offset: u32,
    buffer: u32,
) -> AttribSlot {
    AttribSlot { enabled: prev.enabled, size, elem, normalized, stride, offset, buffer }
}

impl DriverState {
    /// The attribute table of vertex array `h`.
    pub open spec fn attrib_table(self, h: u32) -> Seq<AttribSlot> {
        self.vaos@[h as int - 1].attribs@
    }

    /// The error, if any, with which the driver refuses a slot configuration
    /// in this state: an out-of-range slot or component count is an invalid
    /// value; configuring with no vertex array or no vertex buffer bound is
    /// an invalid operation.
    pub open spec fn attrib_pointer_check(self, index: u32, size: u32) -> Option<GlErrorKind> {
        if index as int >= MAX_VERTEX_ATTRIBS {
            Some(GlErrorKind::InvalidValue)
        } else if size < 1 || size > 4 {
            Some(GlErrorKind::InvalidValue)
        } else if self.bound_vertex_array == 0 {
            Some(GlErrorKind::InvalidOperation)
        } else if self.bound_array_buffer == 0 {
            Some(GlErrorKind::InvalidOperation)
        } else {
            None
        }
    }

    /// The error, if any, with which the driver refuses enabling a slot.
    pub open spec fn attrib_enable_check(self, index: u32) -> Option<GlErrorKind> {
        if index as int >= MAX_VERTEX_ATTRIBS {
            Some(GlErrorKind::InvalidValue)
        } else if self.bound_vertex_array == 0 {
            Some(GlErrorKind::InvalidOperation)
        } else {
            None
        }
    }

    /// Allocates a fresh vertex-array name with a table of default slots.
    pub fn gen_vertex_array(&mut self) -> (h: u32)
        requires
            old(self).wf(),
            old(self).vaos@.len() < u32::MAX,
        ensures
            final(self).wf(),
            h != 0,
            h == old(self).vaos@.len() + 1,
            !old(self).vao_live(h),
            final(self).vao_live(h),
            final(self).vaos@.len() == old(self).vaos@.len() + 1,
            forall|i: int|
                0 <= i < old(self).vaos@.len() ==> final(self).vaos@[i] == old(self).vaos@[i],
            final(self).vaos@[h as int - 1].alive,
            final(self).attrib_table(h).len() == MAX_VERTEX_ATTRIBS,
            forall|k: int|
                0 <= k < MAX_VERTEX_ATTRIBS ==> final(self).attrib_table(h)[k]
                    == AttribSlot::spec_default(),
            final(self).buffers == old(self).buffers,
            final(self).shaders == old(self).shaders,
            final(self).programs == old(self).programs,
            final(self).bound_array_buffer == old(self).bound_array_buffer,
            final(self).bound_element_array_buffer == old(self).bound_element_array_buffer,
            final(self).bound_vertex_array == old(self).bound_vertex_array,
            final(self).active_program == old(self).active_program,
            final(self).error_flag == old(self).error_flag,
            final(self).trace@ == old(self).trace@.push(GlCall::GenVertexArray(h)),
    {
        let h = (self.vaos.len() as u32) + 1;
        let mut attribs: Vec<AttribSlot> = Vec::new();
        for k in 0..MAX_VERTEX_ATTRIBS
            invariant
                attribs@.len() == k,
                forall|j: int| 0 <= j < k ==> attribs@[j] == AttribSlot::spec_default(),
        {
            attribs.push(AttribSlot::default());
        }
        self.vaos.push(VaoRecord { alive: true, attribs });
        self.trace.push(GlCall::GenVertexArray(h));
        h
    }

    /// Binds vertex array `h`, or the null handle. Binding a name that is
    /// not a live vertex array is refused with an invalid-operation error.
    pub fn bind_vertex_array(&mut self, h: u32)
        requires
            old(self).wf(),
        ensures
            final(self).wf(),
            final(self).buffers == old(self).buffers,
            final(self).vaos == old(self).vaos,
            final(self).shaders == old(self).shaders,
            final(self).programs == old(self).programs,
            final(self).bound_array_buffer == old(self).bound_array_buffer,
            final(self).bound_element_array_buffer == old(self).bound_element_array_buffer,
            final(self).active_program == old(self).active_program,
            final(self).trace@ == old(self).trace@.push(GlCall::BindVertexArray(h)),
            final(self).bound_vertex_array == (if h == 0 || old(self).vao_live(h) {
                h
            } else {
                old(self).bound_vertex_array
            }),
            final(self).error_flag == (if h == 0 || old(self).vao_live(h) {
                old(self).error_flag
            } else {
                flag_after(old(self).error_flag, GlErrorKind::InvalidOperation)
            }),
    {
        if h == 0 || self.is_vao_live(h) {
            self.bound_vertex_array = h;
        } else {
            self.record_error(GlErrorKind::InvalidOperation);
        }
        self.trace.push(GlCall::BindVertexArray(h));
    }

    /// Deletes a vertex-array name, resetting the binding slot if it holds
    /// the name; the null handle and dead names are silently ignored.
    pub fn delete_vertex_array(&mut self, h: u32)
        requires
            old(self).wf(),
        ensures
            final(self).wf(),
            final(self).buffers == old(self).buffers,
            final(self).shaders == old(self).shaders,
            final(self).programs == old(self).programs,
            final(self).bound_array_buffer == old(self).bound_array_buffer,
            final(self).bound_element_array_buffer == old(self).bound_element_array_buffer,
            final(self).active_program == old(self).active_program,
            final(self).error_flag == old(self).error_flag,
            final(self).trace@ == old(self).trace@.push(GlCall::DeleteVertexArray(h)),
            old(self).vao_live(h) ==> final(self).vaos@ == old(self).vaos@.update(
                h as int - 1,
                (VaoRecord { alive: false, ..old(self).vaos@[h as int - 1] }),
            ),
            !old(self).vao_live(h) ==> final(self).vaos == old(self).vaos,
            final(self).bound_vertex_array == (if old(self).bound_vertex_array == h && old(
                self,
            ).vao_live(h) {
                0u32
            } else {
                old(self).bound_vertex_array
            }),
            !final(self).vao_live(h),
    {
        if self.is_vao_live(h) {
            let rec = vec_index_mut(&mut self.vaos, (h - 1) as usize);
            rec.alive = false;
            if self.bound_vertex_array == h {
                self.bound_vertex_array = 0;
            }
        }
        self.trace.push(GlCall::DeleteVertexArray(h));
    }

    /// Configures attribute slot `index` of the bound vertex array with the
    /// given layout, latching the vertex buffer currently bound. The checks
    /// of [`DriverState::attrib_pointer_check`] apply; a refused call leaves
    /// every table unchanged.
    pub fn vertex_attrib_pointer(
        &mut self,
        index: u32,
        size: u32,
        elem: ElementType,
        normalized: bool,
        stride: u32,
        offset: u32,
    ) -> (r: Result<(), EngineError>)
        requires
            old(self).wf(),
        ensures
            final(self).wf(),
            final(self).buffers == old(self).buffers,
            final(self).shaders == old(self).shaders,
            final(self).programs == old(self).programs,
            final(self).bound_array_buffer == old(self).bound_array_buffer,
            final(self).bound_element_array_buffer == old(self).bound_element_array_buffer,
            final(self).bound_vertex_array == old(self).bound_vertex_array,
            final(self).active_program == old(self).active_program,
            final(self).trace@ == old(self).trace@.push(
                GlCall::VertexAttribPointer(index, size, elem, normalized, stride, offset),
            ),
            old(self).attrib_pointer_check(index, size) is None ==> {
                let v = old(self).bound_vertex_array as int;
                &&& r is Ok
                &&& final(self).error_flag == old(self).error_flag
                &&& final(self).vaos@.len() == old(self).vaos@.len()
                &&& forall|j: int|
                    0 <= j < old(self).vaos@.len() && j != v - 1 ==> final(self).vaos@[j] == old(
                        self,
                    ).vaos@[j]
                &&& final(self).vaos@[v - 1].alive == old(self).vaos@[v - 1].alive
                &&& final(self).vaos@[v - 1].attribs@ == old(self).vaos@[v - 1].attribs@.update(
                    index as int,
                    slot_after_pointer(
                        old(self).vaos@[v - 1].attribs@[index as int],
                        size,
                        elem,
                        normalized,
                        stride,
                        offset,
                        old(self).bound_array_buffer,
                    ),
                )
            },
            old(self).attrib_pointer_check(index, size) is Some ==> {
                let kind = old(self).attrib_pointer_check(index, size)->Some_0;
                &&& r == Err::<(), EngineError>(EngineError::Driver(kind))
                &&& final(self).vaos == old(self).vaos
                &&& final(self).error_flag == flag_after(old(self).error_flag, kind)
            },
    {
        if index >= MAX_VERTEX_ATTRIBS as u32 {
            self.record_error(GlErrorKind::InvalidValue);
            self.trace.push(
                GlCall::VertexAttribPointer(index, size, elem, normalized, stride, offset),
            );
            return Err(EngineError::Driver(GlErrorKind::InvalidValue));
        }
        if size < 1 || size > 4 {
            self.record_error(GlErrorKind::InvalidValue);
            self.trace.push(
                GlCall::VertexAttribPointer(index, size, elem, normalized, stride, offset),
            );
            return Err(EngineError::Driver(GlErrorKind::InvalidValue));
        }
        if self.bound_vertex_array == 0 || self.bound_array_buffer == 0 {
            self.record_error(GlErrorKind::InvalidOperation);
            self.trace.push(
                GlCall::VertexAttribPointer(index, size, elem, normalized, stride, offset),
            );
            return Err(EngineError::Driver(GlErrorKind::InvalidOperation));
        }
        let buf = self.bound_array_buffer;
        let vi = (self.bound_vertex_array - 1) as usize;
        let rec = vec_index_mut(&mut self.vaos, vi);
        let prev_enabled = rec.attribs[index as usize].enabled;
        let slot = vec_index_mut(&mut rec.attribs, index as usize);
        *slot = AttribSlot {
            enabled: prev_enabled,
            size,
            elem,
            normalized,
            stride,
            offset,
            buffer: buf,
        };
        self.trace.push(GlCall::VertexAttribPointer(index, size, elem, normalized, stride, offset));
        Ok(())
    }

    /// Enables attribute slot `index` of the bound vertex array, leaving the
    /// slot's layout untouched. The checks of
    /// [`DriverState::attrib_enable_check`] apply.
    pub fn enable_vertex_attrib_array(&mut self, index: u32) -> (r: Result<(), EngineError>)
        requires
            old(self).wf(),
        ensures
            final(self).wf(),
            final(self).buffers == old(self).buffers,
            final(self).shaders == old(self).shaders,
            final(self).programs == old(self).programs,
            final(self).bound_array_buffer == old(self).bound_array_buffer,
            final(self).bound_element_array_buffer == old(self).bound_element_array_buffer,
            final(self).bound_vertex_array == old(self).bound_vertex_array,
            final(self).active_program == old(self).active_program,
            final(self).trace@ == old(self).trace@.push(GlCall::EnableVertexAttribArray(index)),
            old(self).attrib_enable_check(index) is None ==> {
                let v = old(self).bound_vertex_array as int;
                &&& r is Ok
                &&& final(self).error_flag == old(self).error_flag
                &&& final(self).vaos@.len() == old(self).vaos@.len()
                &&& forall|j: int|
                    0 <= j < old(self).vaos@.len() && j != v - 1 ==> final(self).vaos@[j] == old(
                        self,
                    ).vaos@[j]
                &&& final(self).vaos@[v - 1].alive == old(self).vaos@[v - 1].alive
                &&& final(self).vaos@[v - 1].attribs@ == old(self).vaos@[v - 1].attribs@.update(
                    index as int,
                    (AttribSlot {
                        enabled: true,
                        ..old(self).vaos@[v - 1].attribs@[index as int]
                    }),
                )
            },
            old(self).attrib_enable_check(index) is Some ==> {
                let kind = old(self).attrib_enable_check(index)->Some_0;
                &&& r == Err::<(), EngineError>(EngineError::Driver(kind))
                &&& final(self).vaos == old(self).vaos
                &&& final(self).error_flag == flag_after(old(self).error_flag, kind)
            },
    {
        if index >= MAX_VERTEX_ATTRIBS as u32 {
            self.record_error(GlErrorKind::InvalidValue);
            self.trace.push(GlCall::EnableVertexAttribArray(index));
            return Err(EngineError::Driver(GlErrorKind::InvalidValue));
        }
        if self.bound_vertex_array == 0 {
            self.record_error(GlErrorKind::InvalidOperation);
            self.trace.push(GlCall::EnableVertexAttribArray(index));
            return Err(EngineError::Driver(GlErrorKind::InvalidOperation));
        }
        let vi = (self.bound_vertex_array - 1) as usize;
        let rec = vec_index_mut(&mut self.vaos, vi);
        let slot = vec_index_mut(&mut rec.attribs, index as usize);
        slot.enabled = true;
        self.trace.push(GlCall::EnableVertexAttribArray(index));
        Ok(())
    }
}

/// The first location bound to `name` in a uniform table, if any.
pub open spec fn uniform_lookup(entries: Seq<(String, i32)>, name: Seq<char>) -> Option<i32>
    decreases entries.len(),
{
    if entries.len() == 0 {
        None
    } else if entries[0].0@ == name {
        Some(entries[0].1)
    } else {
        uniform_lookup(entries.drop_first(), name)
    }
}

/// Whether some uniform of the table lives at location `loc`.
pub open spec fn has_location(entries: Seq<(String, i32)>, loc: i32) -> bool {
    exists|i: int| 0 <= i < entries.len() && (#[trigger] entries[i]).1 == loc
}

/// What a draw call returns: the indices the driver reads from the bound
/// index buffer, and the number of triangles they assemble.
#[derive(Debug, PartialEq, Eq)]
pub struct DrawStats {
    pub reads: Vec<u32>,
    pub triangles: usize,
}

impl DriverState {
    /// Program `h` is live and its most recent link succeeded.
    pub open spec fn program_linked(self, h: u32) -> bool {
        &&& self.program_live(h)
        &&& self.programs@[h as int - 1].linked
    }

    /// Every shader attached to program `h` has compiled successfully.
    pub open spec fn all_attached_compiled(self, h: u32) -> bool {
        let a = self.programs@[h as int - 1].attached@;
        forall|i: int|
            0 <= i < a.len() ==> self.shaders@[(#[trigger] a[i]) as int - 1].compiled
    }

    /// The error, if any, with which the driver refuses activating `h`.
    pub open spec fn use_check(self, h: u32) -> Option<GlErrorKind> {
        if h == 0 {
            None
        } else if !self.program_linked(h) {
            Some(GlErrorKind::InvalidOperation)
        } else {
            None
        }
    }

    /// The error, if any, with which the driver refuses a uniform-set call:
    /// there must be an active program, and a location other than the
    /// ignored `-1` must belong to it.
    pub open spec fn uniform_check(self, loc: i32) -> Option<GlErrorKind> {
        if self.active_program == 0 {
            Some(GlErrorKind::InvalidOperation)
        } else if loc == -1 {
            None
        } else if !has_location(
            self.programs@[self.active_program as int - 1].uniforms@,
            loc,
        ) {
            Some(GlErrorKind::InvalidOperation)
        } else {
            None
        }
    }

    /// The error, if any, with which the driver refuses an indexed draw: a
    /// linked program must be active, a vertex array and an index buffer
    /// bound, and the buffer must hold the indices asked for.
    pub open spec fn draw_check(self, count: usize) -> Option<GlErrorKind> {
        if self.active_program == 0 || !self.program_linked(self.active_program) {
            Some(GlErrorKind::InvalidOperation)
        } else if self.bound_vertex_array == 0 {
            Some(GlErrorKind::InvalidOperation)
        } else if self.bound_element_array_buffer == 0 {
            Some(GlErrorKind::InvalidOperation)
        } else if count > self.buffers@[self.bound_element_array_buffer as int - 1].data@.len() {
            Some(GlErrorKind::InvalidOperation)
        } else {
            None
        }
    }

    /// Requests a shader handle for a stage. The driver may refuse the
    /// allocation; `created` carries its answer, and on refusal the null
    /// handle is returned and no object comes into being.
    pub fn create_shader(&mut self, stage: ShaderType, created: bool) -> (h: u32)
        requires
            old(self).wf(),
            old(self).shaders@.len() < u32::MAX,
        ensures
            final(self).wf(),
            final(self).buffers == old(self).buffers,
            final(self).vaos == old(self).vaos,
            final(self).programs == old(self).programs,
            final(self).bound_array_buffer == old(self).bound_array_buffer,
            final(self).bound_element_array_buffer == old(self).bound_element_array_buffer,
            final(self).bound_vertex_array == old(self).bound_vertex_array,
            final(self).active_program == old(self).active_program,
            final(self).error_flag == old(self).error_flag,
            final(self).trace@ == old(self).trace@.push(GlCall::CreateShader(stage, h)),
            created ==> {
                &&& h != 0
                &&& h == old(self).shaders@.len() + 1
                &&& !old(self).shader_live(h)
                &&& final(self).shader_live(h)
                &&& final(self).shaders@.len() == old(self).shaders@.len() + 1
                &&& forall|i: int|
                    0 <= i < old(self).shaders@.len() ==> final(self).shaders@[i] == old(
                        self,
                    ).shaders@[i]
                &&& final(self).shaders@[h as int - 1].alive
                &&& final(self).shaders@[h as int - 1].stage == stage
                &&& final(self).shaders@[h as int - 1].source@ == Seq::<char>::empty()
                &&& !final(self).shaders@[h as int - 1].compiled
                &&& final(self).shaders@[h as int - 1].log@ == Seq::<char>::empty()
            },
            !created ==> h == 0 && final(self).shaders == old(self).shaders,
    {
        if created {
            let h = (self.shaders.len() as u32) + 1;
            self.shaders.push(
                ShaderRecord {
                    alive: true,
                    stage,
                    source: String::new(),
                    compiled: false,
                    log: String::new(),
                },
            );
            self.trace.push(GlCall::CreateShader(stage, h));
            h
        } else {
            self.trace.push(GlCall::CreateShader(stage, 0));
            0
        }
    }

    /// Submits source text to a live shader object.
    pub fn shader_source(&mut self, h: u32, source: String)
        requires
            old(self).wf(),
            old(self).shader_live(h),
        ensures
            final(self).wf(),
            *final(self) == (DriverState {
                shaders: final(self).shaders,
                trace: final(self).trace,
                ..*old(self)
            }),
            final(self).shaders@ == old(self).shaders@.update(
                h as int - 1,
                (ShaderRecord { source, ..old(self).shaders@[h as int - 1] }),
            ),
            final(self).trace@ == old(self).trace@.push(GlCall::ShaderSource(h)),
    {
        let rec = vec_index_mut(&mut self.shaders, (h - 1) as usize);
        rec.source = source;
        self.trace.push(GlCall::ShaderSource(h));
    }

    /// Compiles a live shader object. Whether the source compiled, and the
    /// diagnostic log, are the driver's verdict, passed in as `ok` and
    /// `log`; the record keeps both, as the wrapper queries status and log
    /// unconditionally after compiling.
    pub fn compile_shader(&mut self, h: u32, ok: bool, log: String)
        requires
            old(self).wf(),
            old(self).shader_live(h),
        ensures
            final(self).wf(),
            *final(self) == (DriverState {
                shaders: final(self).shaders,
                trace: final(self).trace,
                ..*old(self)
            }),
            final(self).shaders@ == old(self).shaders@.update(
                h as int - 1,
                (ShaderRecord { compiled: ok, log, ..old(self).shaders@[h as int - 1] }),
            ),
            final(self).trace@ == old(self).trace@.push(GlCall::CompileShader(h)),
    {
        let rec = vec_index_mut(&mut self.shaders, (h - 1) as usize);
        rec.compiled = ok;
        rec.log = log;
        self.trace.push(GlCall::CompileShader(h));
    }

    /// Deletes a shader name. Unlike buffer names, the driver raises an
    /// invalid-value error when the name is not a live shader object.
    pub fn delete_shader(&mut self, h: u32)
        requires
            old(self).wf(),
        ensures
            final(self).wf(),
            final(self).buffers == old(self).buffers,
            final(self).vaos == old(self).vaos,
            final(self).programs == old(self).programs,
            final(self).bound_array_buffer == old(self).bound_array_buffer,
            final(self).bound_element_array_buffer == old(self).bound_element_array_buffer,
            final(self).bound_vertex_array == old(self).bound_vertex_array,
            final(self).active_program == old(self).active_program,
            final(self).trace@ == old(self).trace@.push(GlCall::DeleteShader(h)),
            old(self).shader_live(h) ==> final(self).shaders@ == old(self).shaders@.update(
                h as int - 1,
                (ShaderRecord { alive: false, ..old(self).shaders@[h as int - 1] }),
            ) && final(self).error_flag == old(self).error_flag,
            !old(self).shader_live(h) ==> final(self).shaders == old(self).shaders
                && final(self).error_flag == flag_after(
                old(self).error_flag,
                GlErrorKind::InvalidValue,
            ),
            !final(self).shader_live(h),
    {
        if self.is_shader_live(h) {
            let rec = vec_index_mut(&mut self.shaders, (h - 1) as usize);
            rec.alive = false;
        } else {
            self.record_error(GlErrorKind::InvalidValue);
        }
        self.trace.push(GlCall::DeleteShader(h));
    }

    /// Allocates a fresh program name with nothing attached.
    pub fn create_program(&mut self) -> (h: u32)
        requires
            old(self).wf(),
            old(self).programs@.len() < u32::MAX,
        ensures
            final(self).wf(),
            h != 0,
            h == old(self).programs@.len() + 1,
            !old(self).program_live(h),
            final(self).program_live(h),
            final(self).programs@.len() == old(self).programs@.len() + 1,
            forall|i: int|
                0 <= i < old(self).programs@.len() ==> final(self).programs@[i] == old(
                    self,
                ).programs@[i],
            final(self).programs@[h as int - 1].alive,
            final(self).programs@[h as int - 1].attached@ == Seq::<u32>::empty(),
            !final(self).programs@[h as int - 1].linked,
            final(self).programs@[h as int - 1].log@ == Seq::<char>::empty(),
            final(self).programs@[h as int - 1].uniforms@.len() == 0,
            final(self).buffers == old(self).buffers,
            final(self).vaos == old(self).vaos,
            final(self).shaders == old(self).shaders,
            final(self).bound_array_buffer == old(self).bound_array_buffer,
            final(self).bound_element_array_buffer == old(self).bound_element_array_buffer,
            final(self).bound_vertex_array == old(self).bound_vertex_array,
            final(self).active_program == old(self).active_program,
            final(self).error_flag == old(self).error_flag,
            final(self).trace@ == old(self).trace@.push(GlCall::CreateProgram(h)),
    {
        let h = (self.programs.len() as u32) + 1;
        self.programs.push(
            ProgramRecord {
                alive: true,
                attached: Vec::new(),
                linked: false,
                log: String::new(),
                uniforms: Vec::new(),
            },
        );
        self.trace.push(GlCall::CreateProgram(h));
        h
    }

    /// Attaches shader `s` to program `p`. The driver refuses attaching the
    /// same shader twice, so callers keep the attachments distinct.
    pub fn attach_shader(&mut self, p: u32, s: u32)
        requires
            old(self).wf(),
            old(self).program_live(p),
            old(self).shader_live(s),
            !old(self).programs@[p as int - 1].attached@.contains(s),
        ensures
            final(self).wf(),
            final(self).buffers == old(self).buffers,
            final(self).vaos == old(self).vaos,
            final(self).shaders == old(self).shaders,
            final(self).bound_array_buffer == old(self).bound_array_buffer,
            final(self).bound_element_array_buffer == old(self).bound_element_array_buffer,
            final(self).bound_vertex_array == old(self).bound_vertex_array,
            final(self).active_program == old(self).active_program,
            final(self).error_flag == old(self).error_flag,
            final(self).trace@ == old(self).trace@.push(GlCall::AttachShader(p, s)),
            final(self).programs@.len() == old(self).programs@.len(),
            forall|j: int|
                0 <= j < old(self).programs@.len() && j != p - 1 ==> final(self).programs@[j]
                    == old(self).programs@[j],
            final(self).programs@[p as int - 1].alive == old(self).programs@[p as int - 1].alive,
            final(self).programs@[p as int - 1].linked == old(self).programs@[p as int - 1].linked,
            final(self).programs@[p as int - 1].log == old(self).programs@[p as int - 1].log,
            final(self).programs@[p as int - 1].uniforms == old(
                self,
            ).programs@[p as int - 1].uniforms,
            final(self).programs@[p as int - 1].attached@ == old(
                self,
            ).programs@[p as int - 1].attached@.push(s),
    {
        let rec = vec_index_mut(&mut self.programs, (p - 1) as usize);
        rec.attached.push(s);
        self.trace.push(GlCall::AttachShader(p, s));
    }

    /// Detaches shader `s` from program `p`, removing its first occurrence
    /// among the attachments.
    pub fn detach_shader(&mut self, p: u32, s: u32)
        requires
            old(self).wf(),
            old(self).program_live(p),
            old(self).programs@[p as int - 1].attached@.contains(s),
        ensures
            final(self).wf(),
            final(self).buffers == old(self).buffers,
            final(self).vaos == old(self).vaos,
            final(self).shaders == old(self).shaders,
            final(self).bound_array_buffer == old(self).bound_array_buffer,
            final(self).bound_element_array_buffer == old(self).bound_element_array_buffer,
            final(self).bound_vertex_array == old(self).bound_vertex_array,
            final(self).active_program == old(self).active_program,
            final(self).error_flag == old(self).error_flag,
            final(self).trace@ == old(self).trace@.push(GlCall::DetachShader(p, s)),
            final(self).programs@.len() == old(self).programs@.len(),
            forall|j: int|
                0 <= j < old(self).programs@.len() && j != p - 1 ==> final(self).programs@[j]
                    == old(self).programs@[j],
            final(self).programs@[p as int - 1].alive == old(self).programs@[p as int - 1].alive,
            final(self).programs@[p as int - 1].linked == old(self).programs@[p as int - 1].linked,
            final(self).programs@[p as int - 1].log == old(self).programs@[p as int - 1].log,
            final(self).programs@[p as int - 1].uniforms == old(
                self,
            ).programs@[p as int - 1].uniforms,
            exists|i: int|
                #![trigger old(self).programs@[p as int - 1].attached@[i]]
                {
                    let a = old(self).programs@[p as int - 1].attached@;
                    &&& 0 <= i < a.len()
                    &&& a[i] == s
                    &&& (forall|j: int| 0 <= j < i ==> a[j] != s)
                    &&& final(self).programs@[p as int - 1].attached@ == a.remove(i)
                },
    {
        let pi = (p - 1) as usize;
        let n = self.programs[pi].attached.len();
        let mut i: usize = 0;
        while i < n && self.programs[pi].attached[i] != s
            invariant
                *self == *old(self),
                old(self).program_live(p),
                pi == p - 1,
                n == self.programs@[pi as int].attached@.len(),
                i <= n,
                forall|j: int| 0 <= j < i ==> self.programs@[pi as int].attached@[j] != s,
            decreases n - i,
        {
            i += 1;
        }
        assert(i < n) by {
            assert(old(self).programs@[p as int - 1].attached@.contains(s));
        }
        let rec = vec_index_mut(&mut self.programs, pi);
        let _detached = rec.attached.remove(i);
        self.trace.push(GlCall::DetachShader(p, s));
    }

    /// Deletes a program name, deactivating it if it is the active program.
    /// The null handle is silently ignored; any other name that is not a
    /// live program raises an invalid-value error.
    pub fn delete_program(&mut self, h: u32)
        requires
            old(self).wf(),
        ensures
            final(self).wf(),
            final(self).buffers == old(self).buffers,
            final(self).vaos == old(self).vaos,
            final(self).shaders == old(self).shaders,
            final(self).bound_array_buffer == old(self).bound_array_buffer,
            final(self).bound_element_array_buffer == old(self).bound_element_array_buffer,
            final(self).bound_vertex_array == old(self).bound_vertex_array,
            final(self).trace@ == old(self).trace@.push(GlCall::DeleteProgram(h)),
            old(self).program_live(h) ==> final(self).programs@ == old(self).programs@.update(
                h as int - 1,
                (ProgramRecord { alive: false, ..old(self).programs@[h as int - 1] }),
            ) && final(self).error_flag == old(self).error_flag,
            !old(self).program_live(h) && h != 0 ==> final(self).programs == old(self).programs
                && final(self).error_flag == flag_after(
                old(self).error_flag,
                GlErrorKind::InvalidValue,
            ),
            h == 0 ==> final(self).programs == old(self).programs && final(self).error_flag == old(
                self,
            ).error_flag,
            final(self).active_program == (if old(self).active_program == h && old(
                self,
            ).program_live(h) {
                0u32
            } else {
                old(self).active_program
            }),
            !final(self).program_live(h),
    {
        if self.is_program_live(h) {
            let rec = vec_index_mut(&mut self.programs, (h - 1) as usize);
            rec.alive = false;
            if self.active_program == h {
                self.active_program = 0;
            }
        } else if h != 0 {
            self.record_error(GlErrorKind::InvalidValue);
        }
        self.trace.push(GlCall::DeleteProgram(h));
    }

    /// Links program `p`. Whether the link succeeded, the diagnostic log,
    /// and the table of uniform locations the link established are the
    /// driver's verdict, passed in as `ok`, `log` and `uniforms`. The driver
    /// documents that a link never succeeds while an attached shader is
    /// uncompiled, so the recorded status conjoins the verdict with that
    /// check; a failed link establishes no uniforms.
    pub fn link_program(&mut self, p: u32, ok: bool, log: String, uniforms: Vec<(String, i32)>)
        requires
            old(self).wf(),
            old(self).program_live(p),
            forall|i: int|
                0 <= i < old(self).programs@[p as int - 1].attached@.len() ==> old(
                    self,
                ).shader_live(#[trigger] old(self).programs@[p as int - 1].attached@[i]),
        ensures
            final(self).wf(),
            final(self).buffers == old(self).buffers,
            final(self).vaos == old(self).vaos,
            final(self).shaders == old(self).shaders,
            final(self).bound_array_buffer == old(self).bound_array_buffer,
            final(self).bound_element_array_buffer == old(self).bound_element_array_buffer,
            final(self).bound_vertex_array == old(self).bound_vertex_array,
            final(self).active_program == old(self).active_program,
            final(self).error_flag == old(self).error_flag,
            final(self).trace@ == old(self).trace@.push(GlCall::LinkProgram(p)),
            final(self).programs@.len() == old(self).programs@.len(),
            forall|j: int|
                0 <= j < old(self).programs@.len() && j != p - 1 ==> final(self).programs@[j]
                    == old(self).programs@[j],
            final(self).programs@[p as int - 1].alive == old(self).programs@[p as int - 1].alive,
            final(self).programs@[p as int - 1].attached == old(
                self,
            ).programs@[p as int - 1].attached,
            final(self).programs@[p as int - 1].linked == (ok && old(self).all_attached_compiled(
                p,
            )),
            final(self).programs@[p as int - 1].log == log,
            ok && old(self).all_attached_compiled(p)
                ==> final(self).programs@[p as int - 1].uniforms == uniforms,
            !(ok && old(self).all_attached_compiled(p))
                ==> final(self).programs@[p as int - 1].uniforms@.len() == 0,
            final(self).program_linked(p) == (ok && old(self).all_attached_compiled(p)),
    {
        let pi = (p - 1) as usize;
        let n = self.programs[pi].attached.len();
        let mut all = true;
        let mut i: usize = 0;
        while i < n
            invariant
                *self == *old(self),
                old(self).wf(),
                old(self).program_live(p),
                forall|k: int|
                    0 <= k < old(self).programs@[p as int - 1].attached@.len() ==> old(
                        self,
                    ).shader_live(#[trigger] old(self).programs@[p as int - 1].attached@[k]),
                pi == p - 1,
                n == self.programs@[pi as int].attached@.len(),
                i <= n,
                all == (forall|k: int|
                    0 <= k < i ==> self.shaders@[(#[trigger] self.programs@[pi as int].attached@[k])
                        as int - 1].compiled),
            decreases n - i,
        {
            let h = self.programs[pi].attached[i];
            if !self.shaders[(h - 1) as usize].compiled {
                all = false;
            }
            i += 1;
        }
        let linked = ok && all;
        let rec = vec_index_mut(&mut self.programs, pi);
        rec.linked = linked;
        rec.log = log;
        if linked {
            rec.uniforms = uniforms;
        } else {
            rec.uniforms = Vec::new();
        }
        self.trace.push(GlCall::LinkProgram(p));
    }

    /// Activates program `h` for subsequent draw calls, or deactivates with
    /// the null handle. Exactly one program is active driver-wide. A name
    /// that is not a successfully linked program is refused with an
    /// invalid-operation error.
    pub fn use_program(&mut self, h: u32) -> (r: Result<(), EngineError>)
        requires
            old(self).wf(),
        ensures
            final(self).wf(),
            final(self).buffers == old(self).buffers,
            final(self).vaos == old(self).vaos,
            final(self).shaders == old(self).shaders,
            final(self).programs == old(self).programs,
            final(self).bound_array_buffer == old(self).bound_array_buffer,
            final(self).bound_element_array_buffer == old(self).bound_element_array_buffer,
            final(self).bound_vertex_array == old(self).bound_vertex_array,
            final(self).trace@ == old(self).trace@.push(GlCall::UseProgram(h)),
            old(self).use_check(h) is None ==> final(self).active_program == h
                && final(self).error_flag == old(self).error_flag && r is Ok,
            old(self).use_check(h) is Some ==> final(self).active_program == old(
                self,
            ).active_program && final(self).error_flag == flag_after(
                old(self).error_flag,
                old(self).use_check(h)->Some_0,
            ) && r == Err::<(), EngineError>(EngineError::Driver(old(self).use_check(h)->Some_0)),
    {
        if h == 0 {
            self.active_program = 0;
            self.trace.push(GlCall::UseProgram(h));
            Ok(())
        } else if self.is_program_live(h) && self.programs[(h - 1) as usize].linked {
            self.active_program = h;
            self.trace.push(GlCall::UseProgram(h));
            Ok(())
        } else {
            self.record_error(GlErrorKind::InvalidOperation);
            self.trace.push(GlCall::UseProgram(h));
            Err(EngineError::Driver(GlErrorKind::InvalidOperation))
        }
    }

    /// Resolves a uniform name to its location in program `p`: the first
    /// binding of the name in the table the link established, or `-1` when
    /// the name is unknown. Querying a program that is not successfully
    /// linked raises an invalid-operation error and resolves to `-1`.
    pub fn get_uniform_location(&mut self, p: u32, name: &String) -> (loc: i32)
        requires
            old(self).wf(),
            old(self).program_live(p),
        ensures
            final(self).wf(),
            !old(self).program_linked(p) ==> *final(self) == (DriverState {
                error_flag: flag_after(old(self).error_flag, GlErrorKind::InvalidOperation),
                ..*old(self)
            }) && loc == -1,
            old(self).program_linked(p) ==> *final(self) == *old(self) && loc == (match
            uniform_lookup(old(self).programs@[p as int - 1].uniforms@, name@) {
                Some(l) => l,
                None => -1i32,
            }),
    {
        let pi = (p - 1) as usize;
        if !self.programs[pi].linked {
            self.record_error(GlErrorKind::InvalidOperation);
            return -1;
        }
        let n = self.programs[pi].uniforms.len();
        proof {
            assert(self.programs@[pi as int].uniforms@.skip(0) =~= self.programs@[
                pi as int].uniforms@);
        }
        let mut i: usize = 0;
        while i < n
            invariant
                *self == *old(self),
                old(self).wf(),
                old(self).program_live(p),
                old(self).program_linked(p),
                pi == p - 1,
                n == self.programs@[pi as int].uniforms@.len(),
                i <= n,
                uniform_lookup(self.programs@[pi as int].uniforms@, name@) == uniform_lookup(
                    self.programs@[pi as int].uniforms@.skip(i as int),
                    name@,
                ),
            decreases n - i,
        {
            let ghost entries = self.programs@[pi as int].uniforms@;
            assert(entries.skip(i as int)[0] == entries[i as int]);
            if self.programs[pi].uniforms[i].0 == *name {
                assert(uniform_lookup(entries.skip(i as int), name@) == Some(
                    entries[i as int].1,
                ));
                return self.programs[pi].uniforms[i].1;
            }
            proof {
                assert(entries.skip(i as int).drop_first() =~= entries.skip(i as int + 1));
            }
            i += 1;
        }
        -1
    }

    /// Issues a three-component uniform-set call at `loc` with the given
    /// component bit patterns. The checks of
    /// [`DriverState::uniform_check`] apply; the command is issued either
    /// way, as the driver inspects it only after receiving it.
    pub fn uniform3f(&mut self, loc: i32, x: u32, y: u32, z: u32) -> (r: Result<(), EngineError>)
        requires
            old(self).wf(),
        ensures
            final(self).wf(),
            *final(self) == (DriverState {
                error_flag: final(self).error_flag,
                trace: final(self).trace,
                ..*old(self)
            }),
            final(self).trace@ == old(self).trace@.push(GlCall::Uniform3f(loc, x, y, z)),
            old(self).uniform_check(loc) is None ==> final(self).error_flag == old(
                self,
            ).error_flag && r is Ok,
            old(self).uniform_check(loc) is Some ==> final(self).error_flag == flag_after(
                old(self).error_flag,
                old(self).uniform_check(loc)->Some_0,
            ) && r == Err::<(), EngineError>(
                EngineError::Driver(old(self).uniform_check(loc)->Some_0),
            ),
    {
        let r = self.accept_uniform(loc);
        self.trace.push(GlCall::Uniform3f(loc, x, y, z));
        r
    }

    /// Issues a four-component uniform-set call at `loc`, with the same
    /// checks as the three-component form.
    pub fn uniform4f(&mut self, loc: i32, x: u32, y: u32, z: u32, w: u32) -> (r: Result<
        (),
        EngineError,
    >)
        requires
            old(self).wf(),
        ensures
            final(self).wf(),
            *final(self) == (DriverState {
                error_flag: final(self).error_flag,
                trace: final(self).trace,
                ..*old(self)
            }),
            final(self).trace@ == old(self).trace@.push(GlCall::Uniform4f(loc, x, y, z, w)),
            old(self).uniform_check(loc) is None ==> final(self).error_flag == old(
                self,
            ).error_flag && r is Ok,
            old(self).uniform_check(loc) is Some ==> final(self).error_flag == flag_after(
                old(self).error_flag,
                old(self).uniform_check(loc)->Some_0,
            ) && r == Err::<(), EngineError>(
                EngineError::Driver(old(self).uniform_check(loc)->Some_0),
            ),
    {
        let r = self.accept_uniform(loc);
        self.trace.push(GlCall::Uniform4f(loc, x, y, z, w));
        r
    }

    /// Applies [`DriverState::uniform_check`], raising the error flag on
    /// refusal.
    fn accept_uniform(&mut self, loc: i32) -> (r: Result<(), EngineError>)
        requires
            old(self).wf(),
        ensures
            final(self).wf(),
            old(self).uniform_check(loc) is None ==> *final(self) == *old(self) && r is Ok,
            old(self).uniform_check(loc) is Some ==> *final(self) == (DriverState {
                error_flag: flag_after(old(self).error_flag, old(self).uniform_check(loc)->Some_0),
                ..*old(self)
            }) && r == Err::<(), EngineError>(
                EngineError::Driver(old(self).uniform_check(loc)->Some_0),
            ),
    {
        if self.active_program == 0 {
            self.record_error(GlErrorKind::InvalidOperation);
            return Err(EngineError::Driver(GlErrorKind::InvalidOperation));
        }
        if loc == -1 {
            return Ok(());
        }
        let pi = (self.active_program - 1) as usize;
        let n = self.programs[pi].uniforms.len();
        let mut i: usize = 0;
        while i < n
            invariant
                *self == *old(self),
                old(self).wf(),
                self.active_program != 0,
                loc != -1,
                pi == self.active_program - 1,
                pi < self.programs@.len(),
                n == self.programs@[pi as int].uniforms@.len(),
                i <= n,
                forall|j: int|
                    0 <= j < i ==> (#[trigger] self.programs@[pi as int].uniforms@[j]).1 != loc,
            decreases n - i,
        {
            if self.programs[pi].uniforms[i].1 == loc {
                assert(has_location(self.programs@[pi as int].uniforms@, loc));
                return Ok(());
            }
            i += 1;
        }
        self.record_error(GlErrorKind::InvalidOperation);
        Err(EngineError::Driver(GlErrorKind::InvalidOperation))
    }

    /// Performs an indexed draw of `count` indices from the bound index
    /// buffer. The checks of [`DriverState::draw_check`] apply; on success
    /// the returned statistics list each index read, in order, and the
    /// number of triangles assembled.
    pub fn draw_elements(&mut self, count: usize) -> (r: Result<DrawStats, EngineError>)
        requires
            old(self).wf(),
        ensures
            final(self).wf(),
            *final(self) == (DriverState {
                error_flag: final(self).error_flag,
                trace: final(self).trace,
                ..*old(self)
            }),
            old(self).draw_check(count) is None ==> {
                let data = old(self).buffers@[old(self).bound_element_array_buffer as int
                    - 1].data@;
                &&& final(self).error_flag == old(self).error_flag
                &&& final(self).trace@ == old(self).trace@.push(GlCall::DrawElements(count))
                &&& r is Ok
                &&& r->Ok_0.reads@ == data.take(count as int)
                &&& r->Ok_0.triangles == count / 3
            },
            old(self).draw_check(count) is Some ==> final(self).error_flag == flag_after(
                old(self).error_flag,
                old(self).draw_check(count)->Some_0,
            ) && final(self).trace == old(self).trace && r == Err::<DrawStats, EngineError>(
                EngineError::Driver(old(self).draw_check(count)->Some_0),
            ),
    {
        if self.active_program == 0 || !self.programs[(self.active_program - 1)
            as usize].linked {
            self.record_error(GlErrorKind::InvalidOperation);
            return Err(EngineError::Driver(GlErrorKind::InvalidOperation));
        }
        if self.bound_vertex_array == 0 {
            self.record_error(GlErrorKind::InvalidOperation);
            return Err(EngineError::Driver(GlErrorKind::InvalidOperation));
        }
        if self.bound_element_array_buffer == 0 {
            self.record_error(GlErrorKind::InvalidOperation);
            return Err(EngineError::Driver(GlErrorKind::InvalidOperation));
        }
        let bi = (self.bound_element_array_buffer - 1) as usize;
        if count > self.buffers[bi].data.len() {
            self.record_error(GlErrorKind::InvalidOperation);
            return Err(EngineError::Driver(GlErrorKind::InvalidOperation));
        }
        let mut reads: Vec<u32> = Vec::new();
        let mut i: usize = 0;
        while i < count
            invariant
                *self == *old(self),
                self.bound_element_array_buffer != 0,
                bi == self.bound_element_array_buffer - 1,
                bi < self.buffers@.len(),
                count <= self.buffers@[bi as int].data@.len(),
                i <= count,
                reads@ == self.buffers@[bi as int].data@.take(i as int),
            decreases count - i,
        {
            reads.push(self.buffers[bi].data[i]);
            proof {
                assert(self.buffers@[bi as int].data@.take(i as int + 1) =~= self.buffers@[
                    bi as int].data@.take(i as int).push(self.buffers@[bi as int].data@[i as int]));
            }
            i += 1;
        }
        self.trace.push(GlCall::DrawElements(count));
        Ok(DrawStats { reads, triangles: count / 3 })
    }
}

} // verus!
