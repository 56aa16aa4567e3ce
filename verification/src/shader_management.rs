//! Shader objects, linked shader programs and their uniform caches.
//!
//! A [`Shader`] owns a compiled driver shader handle for one compilation
//! unit; a [`ShaderProgram`] owns a linked driver program built from a fixed
//! set of shader objects handed over at construction, caches uniform
//! locations, and exposes typed uniform-set operations.
//!
//! Compile and link outcomes are the driver's to decide: they enter as
//! [`CompileReport`] and [`LinkReport`] values that the unverified front end
//! fills from the real driver's status, log and uniform queries. Every
//! contract here holds whatever those reports say.

use vstd::prelude::*;

use crate::driver_state::{uniform_lookup, DriverState, GlCall};
use crate::opengl_utils::{EngineError, GlErrorKind};

verus! {

/// The two programmable stages a shader object can be compiled for.
#[derive(Clone, Copy, Debug, PartialEq, Eq, Structural)]
pub enum ShaderType {
    Vertex,
    Fragment,
}

/// The driver's answers to one shader construction: whether a handle was
/// allocated at all, whether the source compiled, and the diagnostic log.
/// Status and log are queried unconditionally after compiling.
#[derive(Debug)]
pub struct CompileReport {
    pub created: bool,
    pub ok: bool,
    pub log: String,
}

/// The driver's answers to one link request: whether the link succeeded,
/// the diagnostic log, and the uniform name-to-location table the link
/// established.
#[derive(Debug)]
pub struct LinkReport {
    pub ok: bool,
    pub log: String,
    pub uniforms: Vec<(String, i32)>,
}

/// A driver shader object for one compilation unit. It transitions once, at
/// construction, from source supplied to compiled — success or failure,
/// both terminal; failure is reported, not retried.
#[derive(Debug)]
pub struct Shader {
    pub shader_type: ShaderType,
    pub shader_id: u32,
    pub compiled: bool,
    pub log: String,
}

impl Shader {
    /// The driver allocated a handle for this object; a shader without one
    /// exists but is unusable, and callers must not attach it to a program.
    pub open spec fn usable(self) -> bool {
        self.shader_id != 0
    }

    /// A usable shader names a live driver shader object whose record
    /// agrees with this object's stage and compile status.
    pub open spec fn valid(self, st: DriverState) -> bool {
        self.usable() ==> {
            &&& st.shader_live(self.shader_id)
            &&& st.shaders@[self.shader_id as int - 1].stage == self.shader_type
            &&& st.shaders@[self.shader_id as int - 1].compiled == self.compiled
        }
    }

    /// Submits the source to a live shader object and compiles it, keeping
    /// the status and log the driver reported.
    fn compile_shader(
        st: &mut DriverState,
        shader_id: u32,
        shader_source: String,
        report: &CompileReport,
    )
        requires
            old(st).wf(),
            old(st).shader_live(shader_id),
        ensures
            final(st).wf(),
            final(st).shaders@ == old(st).shaders@.update(
                shader_id as int - 1,
                (crate::driver_state::ShaderRecord {
                    source: shader_source,
                    compiled: report.ok,
                    log: report.log,
                    ..old(st).shaders@[shader_id as int - 1]
                }),
            ),
            final(st).buffers == old(st).buffers,
            final(st).vaos == old(st).vaos,
            final(st).programs == old(st).programs,
            final(st).bound_array_buffer == old(st).bound_array_buffer,
            final(st).bound_element_array_buffer == old(st).bound_element_array_buffer,
            final(st).bound_vertex_array == old(st).bound_vertex_array,
            final(st).active_program == old(st).active_program,
            final(st).error_flag == old(st).error_flag,
            final(st).trace@ == old(st).trace@ + seq![
                GlCall::ShaderSource(shader_id),
                GlCall::CompileShader(shader_id),
            ],
    {
        st.shader_source(shader_id, shader_source);
        st.compile_shader(shader_id, report.ok, report.log.clone());
        proof {
            assert(st.trace@ =~= old(st).trace@ + seq![
                GlCall::ShaderSource(shader_id),
                GlCall::CompileShader(shader_id),
            ]);
            assert(st.shaders@ =~= old(st).shaders@.update(
                shader_id as int - 1,
                (crate::driver_state::ShaderRecord {
                    source: shader_source,
                    compiled: report.ok,
                    log: report.log,
                    ..old(st).shaders@[shader_id as int - 1]
                }),
            ));
        }
    }

    /// Constructs a shader object for `shader_type` over `shader_source`.
    ///
    /// When the driver refuses to allocate a handle (`report.created` is
    /// false), no compilation is attempted and the object exists unusable.
    /// Otherwise the source is submitted and compiled, and the compile
    /// status and log are kept unconditionally.
    pub fn new(
        st: &mut DriverState,
        shader_type: ShaderType,
        shader_source: String,
        report: &CompileReport,
    ) -> (r: Shader)
        requires
            old(st).wf(),
            old(st).shaders@.len() < u32::MAX,
        ensures
            final(st).wf(),
            r.shader_type == shader_type,
            r.valid(*final(st)),
            final(st).buffers == old(st).buffers,
            final(st).vaos == old(st).vaos,
            final(st).programs == old(st).programs,
            final(st).bound_array_buffer == old(st).bound_array_buffer,
            final(st).bound_element_array_buffer == old(st).bound_element_array_buffer,
            final(st).bound_vertex_array == old(st).bound_vertex_array,
            final(st).active_program == old(st).active_program,
            final(st).error_flag == old(st).error_flag,
            report.created ==> {
                &&& r.shader_id == old(st).shaders@.len() + 1
                &&& r.usable()
                &&& r.compiled == report.ok
                &&& r.log == report.log
                &&& final(st).shader_live(r.shader_id)
                &&& final(st).shaders@.len() == old(st).shaders@.len() + 1
                &&& forall|i: int|
                    0 <= i < old(st).shaders@.len() ==> final(st).shaders@[i] == old(
                        st,
                    ).shaders@[i]
                &&& final(st).shaders@[r.shader_id as int - 1].stage == shader_type
                &&& final(st).shaders@[r.shader_id as int - 1].source == shader_source
                &&& final(st).shaders@[r.shader_id as int - 1].compiled == report.ok
                &&& final(st).shaders@[r.shader_id as int - 1].log == report.log
                &&& final(st).trace@ == old(st).trace@ + seq![
                    GlCall::CreateShader(shader_type, r.shader_id),
                    GlCall::ShaderSource(r.shader_id),
                    GlCall::CompileShader(r.shader_id),
                ]
            },
            !report.created ==> {
                &&& r.shader_id == 0
                &&& !r.compiled
                &&& r.log@ == Seq::<char>::empty()
                &&& final(st).shaders == old(st).shaders
                &&& final(st).trace@ == old(st).trace@.push(
                    GlCall::CreateShader(shader_type, 0),
                )
            },
    {
        let shader_id = st.create_shader(shader_type, report.created);
        if shader_id != 0 {
            Self::compile_shader(st, shader_id, shader_source, report);
            proof {
                assert(st.trace@ =~= old(st).trace@ + seq![
                    GlCall::CreateShader(shader_type, shader_id),
                    GlCall::ShaderSource(shader_id),
                    GlCall::CompileShader(shader_id),
                ]);
            }
            Shader { shader_type, shader_id, compiled: report.ok, log: report.log.clone() }
        } else {
            Shader { shader_type, shader_id: 0, compiled: false, log: String::new() }
        }
    }

    /// Releases a shader that was never handed to a program: deletes the
    /// driver handle, exactly once. An unusable shader has no handle and
    /// nothing is issued.
    pub fn release(self, st: &mut DriverState)
        requires
            old(st).wf(),
            self.valid(*old(st)),
        ensures
            final(st).wf(),
            final(st).buffers == old(st).buffers,
            final(st).vaos == old(st).vaos,
            final(st).programs == old(st).programs,
            final(st).bound_array_buffer == old(st).bound_array_buffer,
            final(st).bound_element_array_buffer == old(st).bound_element_array_buffer,
            final(st).bound_vertex_array == old(st).bound_vertex_array,
            final(st).active_program == old(st).active_program,
            final(st).error_flag == old(st).error_flag,
            !final(st).shader_live(self.shader_id),
            self.usable() ==> final(st).shaders@ == old(st).shaders@.update(
                self.shader_id as int - 1,
                (crate::driver_state::ShaderRecord {
                    alive: false,
                    ..old(st).shaders@[self.shader_id as int - 1]
                }),
            ) && final(st).trace@ == old(st).trace@.push(GlCall::DeleteShader(self.shader_id)),
            !self.usable() ==> final(st).shaders == old(st).shaders && final(st).trace == old(
                st,
            ).trace,
    {
        if self.shader_id != 0 {
            st.delete_shader(self.shader_id);
        }
    }
}

/// The attach commands issued for the given shader handles, in order.
pub open spec fn attach_calls(p: u32, ids: Seq<u32>) -> Seq<GlCall> {
    ids.map_values(|s: u32| GlCall::AttachShader(p, s))
}

/// Replaces the first binding of `name` by inserting in front: lookups of
/// `name` now see `loc`, lookups of every other name are unchanged.
fn cache_insert(cache: &mut Vec<(String, i32)>, name: String, loc: i32)
    ensures
        forall|x: Seq<char>|
            #![trigger uniform_lookup(final(cache)@, x)]
            uniform_lookup(final(cache)@, x) == (if x == name@ {
                Some(loc)
            } else {
                uniform_lookup(old(cache)@, x)
            }),
{
    let ghost name_view = name@;
    cache.insert(0, (name, loc));
    proof {
        assert(cache@.drop_first() =~= old(cache)@);
        assert(cache@[0].0@ == name_view);
    }
}

/// A linked driver program built from a fixed set of shader objects. The
/// shaders are handed over at construction — exactly the objects passed in
/// — and released with the program; the uniform cache is populated by an
/// explicit registration call and never pruned.
#[derive(Debug)]
pub struct ShaderProgram {
    pub program_id: u32,
    pub shaders: Vec<Shader>,
    pub uniforms: Vec<(String, i32)>,
    pub linked: bool,
}

impl ShaderProgram {
    /// The attached shaders' handles, in attachment order.
    pub open spec fn shader_ids(self) -> Seq<u32> {
        self.shaders@.map_values(|s: Shader| s.shader_id)
    }

    /// No two attached shaders share a handle.
    pub open spec fn distinct_attachments(self) -> bool {
        forall|i: int, j: int|
            0 <= i < j < self.shaders@.len() ==> (#[trigger] self.shaders@[i]).shader_id != (
            #[trigger] self.shaders@[j]).shader_id
    }

    /// Every attached shader compiled successfully.
    pub open spec fn all_shaders_compiled(self) -> bool {
        forall|i: int| 0 <= i < self.shaders@.len() ==> (#[trigger] self.shaders@[i]).compiled
    }

    /// The object names a live program of `st` whose attachments are
    /// exactly its shaders, all usable, live and pairwise distinct, and
    /// whose link status the object mirrors.
    pub open spec fn valid(self, st: DriverState) -> bool {
        &&& st.program_live(self.program_id)
        &&& st.programs@[self.program_id as int - 1].attached@ == self.shader_ids()
        &&& st.programs@[self.program_id as int - 1].linked == self.linked
        &&& forall|i: int|
            0 <= i < self.shaders@.len() ==> (#[trigger] self.shaders@[i]).usable()
                && self.shaders@[i].valid(st)
        &&& self.distinct_attachments()
    }

    /// Allocates a driver program and attaches every given shader object,
    /// taking ownership of them. Attachment order is irrelevant to linking
    /// semantics. Callers must not hand over an unusable shader — the
    /// driver would refuse its null handle and no defensive check is
    /// performed downstream — and the handles must be distinct, as the
    /// driver refuses attaching one shader twice.
    pub fn new(st: &mut DriverState, shaders: Vec<Shader>) -> (p: ShaderProgram)
        requires
            old(st).wf(),
            old(st).programs@.len() < u32::MAX,
            forall|i: int|
                0 <= i < shaders@.len() ==> (#[trigger] shaders@[i]).usable()
                    && shaders@[i].valid(*old(st)),
            forall|i: int, j: int|
                0 <= i < j < shaders@.len() ==> (#[trigger] shaders@[i]).shader_id != (
                #[trigger] shaders@[j]).shader_id,
        ensures
            final(st).wf(),
            p.program_id == old(st).programs@.len() + 1,
            p.shaders == shaders,
            p.uniforms@.len() == 0,
            !p.linked,
            p.valid(*final(st)),
            final(st).programs@.len() == old(st).programs@.len() + 1,
            forall|i: int|
                0 <= i < old(st).programs@.len() ==> final(st).programs@[i] == old(
                    st,
                ).programs@[i],
            final(st).buffers == old(st).buffers,
            final(st).vaos == old(st).vaos,
            final(st).shaders == old(st).shaders,
            final(st).bound_array_buffer == old(st).bound_array_buffer,
            final(st).bound_element_array_buffer == old(st).bound_element_array_buffer,
            final(st).bound_vertex_array == old(st).bound_vertex_array,
            final(st).active_program == old(st).active_program,
            final(st).error_flag == old(st).error_flag,
            final(st).trace@ == old(st).trace@ + seq![GlCall::CreateProgram(p.program_id)]
                + attach_calls(p.program_id, p.shader_ids()),
    {
        let program_id = st.create_program();
        let ghost ids = shaders@.map_values(|s: Shader| s.shader_id);
        let n = shaders.len();
        let mut i: usize = 0;
        while i < n
            invariant
                old(st).wf(),
                forall|k: int|
                    0 <= k < shaders@.len() ==> (#[trigger] shaders@[k]).usable()
                        && shaders@[k].valid(*old(st)),
                forall|k: int, j: int|
                    0 <= k < j < shaders@.len() ==> (#[trigger] shaders@[k]).shader_id != (
                    #[trigger] shaders@[j]).shader_id,
                ids == shaders@.map_values(|s: Shader| s.shader_id),
                n == shaders@.len(),
                i <= n,
                program_id == old(st).programs@.len() + 1,
                st.wf(),
                st.program_live(program_id),
                st.buffers == old(st).buffers,
                st.vaos == old(st).vaos,
                st.shaders == old(st).shaders,
                st.bound_array_buffer == old(st).bound_array_buffer,
                st.bound_element_array_buffer == old(st).bound_element_array_buffer,
                st.bound_vertex_array == old(st).bound_vertex_array,
                st.active_program == old(st).active_program,
                st.error_flag == old(st).error_flag,
                st.programs@.len() == old(st).programs@.len() + 1,
                forall|j: int|
                    0 <= j < old(st).programs@.len() ==> st.programs@[j] == old(st).programs@[j],
                st.programs@[program_id as int - 1].alive,
                !st.programs@[program_id as int - 1].linked,
                st.programs@[program_id as int - 1].uniforms@.len() == 0,
                st.programs@[program_id as int - 1].attached@ == ids.take(i as int),
                st.trace@ == old(st).trace@ + seq![GlCall::CreateProgram(program_id)]
                    + attach_calls(program_id, ids.take(i as int)),
            decreases n - i,
        {
            let sid = shaders[i].shader_id;
            proof {
                assert(ids[i as int] == sid);
                if ids.take(i as int).contains(sid) {
                    let j = choose|j: int|
                        0 <= j < i && (#[trigger] ids.take(i as int)[j]) == sid;
                    assert(shaders@[j].shader_id == shaders@[i as int].shader_id);
                    assert(false);
                }
                assert(shaders@[i as int].valid(*old(st)));
                assert(st.shader_live(sid));
            }
            st.attach_shader(program_id, sid);
            proof {
                assert(ids.take(i as int + 1) =~= ids.take(i as int).push(sid));
                assert(attach_calls(program_id, ids.take(i as int + 1)) =~= attach_calls(
                    program_id,
                    ids.take(i as int),
                ).push(GlCall::AttachShader(program_id, sid)));
                assert(st.trace@ =~= old(st).trace@ + seq![GlCall::CreateProgram(program_id)]
                    + attach_calls(program_id, ids.take(i as int + 1)));
            }
            i += 1;
        }
        proof {
            assert(ids.take(n as int) =~= ids);
        }
        ShaderProgram { program_id, shaders, uniforms: Vec::new(), linked: false }
    }

    /// Requests linking and keeps the status and log the driver reported;
    /// both are queried unconditionally. A failed link leaves the program
    /// non-functional but non-crashing: the object records the failure and
    /// later activation is refused. The link succeeds exactly when the
    /// driver's verdict is positive and every attached shader compiled.
    pub fn link(&mut self, st: &mut DriverState, report: LinkReport)
        requires
            old(st).wf(),
            old(self).valid(*old(st)),
        ensures
            final(st).wf(),
            final(self).program_id == old(self).program_id,
            final(self).shaders == old(self).shaders,
            final(self).uniforms == old(self).uniforms,
            final(self).linked == (report.ok && old(self).all_shaders_compiled()),
            final(self).valid(*final(st)),
            final(st).buffers == old(st).buffers,
            final(st).vaos == old(st).vaos,
            final(st).shaders == old(st).shaders,
            final(st).bound_array_buffer == old(st).bound_array_buffer,
            final(st).bound_element_array_buffer == old(st).bound_element_array_buffer,
            final(st).bound_vertex_array == old(st).bound_vertex_array,
            final(st).active_program == old(st).active_program,
            final(st).error_flag == old(st).error_flag,
            final(st).trace@ == old(st).trace@.push(GlCall::LinkProgram(old(self).program_id)),
            final(st).programs@.len() == old(st).programs@.len(),
            forall|j: int|
                0 <= j < old(st).programs@.len() && j != old(self).program_id - 1
                    ==> final(st).programs@[j] == old(st).programs@[j],
            final(st).programs@[old(self).program_id as int - 1].alive,
            final(st).programs@[old(self).program_id as int - 1].attached == old(
                st,
            ).programs@[old(self).program_id as int - 1].attached,
            final(st).programs@[old(self).program_id as int - 1].linked == final(self).linked,
            final(st).programs@[old(self).program_id as int - 1].log == report.log,
            final(self).linked ==> final(st).programs@[old(self).program_id as int - 1].uniforms
                == report.uniforms,
            !final(self).linked ==> final(st).programs@[old(self).program_id as int
                - 1].uniforms@.len() == 0,
    {
        let pid = self.program_id;
        proof {
            let a = st.programs@[pid as int - 1].attached@;
            assert(a == old(self).shader_ids());
            assert forall|i: int| 0 <= i < a.len() implies st.shader_live(#[trigger] a[i]) by {
                assert(a[i] == self.shaders@[i].shader_id);
                assert(self.shaders@[i].usable() && self.shaders@[i].valid(*st));
            }
        }
        let LinkReport { ok, log, uniforms } = report;
        st.link_program(pid, ok, log, uniforms);
        proof {
            let a = old(st).programs@[pid as int - 1].attached@;
            assert forall|i: int|
                0 <= i < self.shaders@.len() implies (#[trigger] self.shaders@[i]).compiled
                == old(st).shaders@[self.shaders@[i].shader_id as int - 1].compiled by {
                assert(self.shaders@[i].usable() && self.shaders@[i].valid(*old(st)));
            }
            assert forall|i: int|
                0 <= i < a.len() implies (#[trigger] a[i]) == self.shaders@[i].shader_id by {}
            if old(self).all_shaders_compiled() {
                assert forall|i: int|
                    0 <= i < a.len() implies old(st).shaders@[(#[trigger] a[i]) as int
                    - 1].compiled by {
                    assert(self.shaders@[i].compiled);
                }
                assert(old(st).all_attached_compiled(pid));
            }
            if old(st).all_attached_compiled(pid) {
                assert forall|i: int|
                    0 <= i < self.shaders@.len() implies (#[trigger] self.shaders@[i]).compiled by {
                    assert(old(st).shaders@[a[i] as int - 1].compiled);
                }
            }
            assert(old(st).all_attached_compiled(pid) == old(self).all_shaders_compiled());
        }
        let now_linked = st.programs[(pid - 1) as usize].linked;
        self.linked = now_linked;
    }

    /// Makes this program the active one for subsequent draw calls.
    /// Exactly one program is active driver-wide, so activation is a global
    /// side effect. Activating a program whose link failed (or that was
    /// never linked) is refused by the driver with an invalid-operation
    /// error.
    pub fn use_program(&self, st: &mut DriverState) -> (r: Result<(), EngineError>)
        requires
            old(st).wf(),
            self.valid(*old(st)),
        ensures
            final(st).wf(),
            self.valid(*final(st)),
            final(st).buffers == old(st).buffers,
            final(st).vaos == old(st).vaos,
            final(st).shaders == old(st).shaders,
            final(st).programs == old(st).programs,
            final(st).bound_array_buffer == old(st).bound_array_buffer,
            final(st).bound_element_array_buffer == old(st).bound_element_array_buffer,
            final(st).bound_vertex_array == old(st).bound_vertex_array,
            final(st).trace@ == old(st).trace@.push(GlCall::UseProgram(self.program_id)),
            self.linked ==> final(st).active_program == self.program_id && final(st).error_flag
                == old(st).error_flag && r is Ok,
            !self.linked ==> final(st).active_program == old(st).active_program
                && final(st).error_flag == crate::driver_state::flag_after(
                old(st).error_flag,
                GlErrorKind::InvalidOperation,
            ) && r == Err::<(), EngineError>(EngineError::Driver(GlErrorKind::InvalidOperation)),
    {
        st.use_program(self.program_id)
    }

    /// Resolves one uniform name against the driver and pairs it with an
    /// owned copy of the name; unknown names resolve to `-1`.
    fn get_uniform_location(&self, st: &mut DriverState, uniform_name: &str) -> (r: (String, i32))
        requires
            old(st).wf(),
            self.valid(*old(st)),
            self.linked,
        ensures
            *final(st) == *old(st),
            r.0@ == uniform_name@,
            r.1 == (match uniform_lookup(
                old(st).programs@[self.program_id as int - 1].uniforms@,
                uniform_name@,
            ) {
                Some(l) => l,
                None => -1i32,
            }),
    {
        let uname = uniform_name.to_owned();
        let location = st.get_uniform_location(self.program_id, &uname);
        (uname, location)
    }

    /// Resolves each name to its driver location and caches the pair.
    /// Names are resolved once, against the table the link established, and
    /// do not change location as long as the program is not re-linked;
    /// names the program does not declare cache the driver's `-1`.
    pub fn get_uniform_locations(&mut self, st: &mut DriverState, names: &[&str])
        requires
            old(st).wf(),
            old(self).valid(*old(st)),
            old(self).linked,
        ensures
            *final(st) == *old(st),
            final(self).program_id == old(self).program_id,
            final(self).shaders == old(self).shaders,
            final(self).linked == old(self).linked,
            final(self).valid(*final(st)),
            forall|x: Seq<char>|
                #![trigger uniform_lookup(final(self).uniforms@, x)]
                uniform_lookup(final(self).uniforms@, x) == (if exists|i: int|
                    0 <= i < names@.len() && (#[trigger] names@[i])@ == x {
                    Some(
                        match uniform_lookup(
                            old(st).programs@[old(self).program_id as int - 1].uniforms@,
                            x,
                        ) {
                            Some(l) => l,
                            None => -1i32,
                        },
                    )
                } else {
                    uniform_lookup(old(self).uniforms@, x)
                }),
    {
        let n = names.len();
        let mut i: usize = 0;
        while i < n
            invariant
                old(st).wf(),
                old(self).valid(*old(st)),
                old(self).linked,
                n == names@.len(),
                i <= n,
                *st == *old(st),
                self.program_id == old(self).program_id,
                self.shaders == old(self).shaders,
                self.linked == old(self).linked,
                forall|x: Seq<char>|
                    #![trigger uniform_lookup(self.uniforms@, x)]
                    uniform_lookup(self.uniforms@, x) == (if exists|j: int|
                        0 <= j < i && (#[trigger] names@[j])@ == x {
                        Some(
                            match uniform_lookup(
                                old(st).programs@[old(self).program_id as int - 1].uniforms@,
                                x,
                            ) {
                                Some(l) => l,
                                None => -1i32,
                            },
                        )
                    } else {
                        uniform_lookup(old(self).uniforms@, x)
                    }),
            decreases n - i,
        {
            let (uname, location) = self.get_uniform_location(st, names[i]);
            let ghost inserted = uname@;
            cache_insert(&mut self.uniforms, uname, location);
            proof {
                assert forall|x: Seq<char>|
                    #![trigger uniform_lookup(self.uniforms@, x)]
                    uniform_lookup(self.uniforms@, x) == (if exists|j: int|
                        0 <= j < i + 1 && (#[trigger] names@[j])@ == x {
                        Some(
                            match uniform_lookup(
                                old(st).programs@[old(self).program_id as int - 1].uniforms@,
                                x,
                            ) {
                                Some(l) => l,
                                None => -1i32,
                            },
                        )
                    } else {
                        uniform_lookup(old(self).uniforms@, x)
                    }) by {
                    if x == inserted {
                        assert(names@[i as int]@ == x);
                    } else {
                        if exists|j: int| 0 <= j < i + 1 && (#[trigger] names@[j])@ == x {
                            let j = choose|j: int|
                                0 <= j < i + 1 && (#[trigger] names@[j])@ == x;
                            assert(j != i as int);
                            assert(exists|j2: int|
                                0 <= j2 < i && (#[trigger] names@[j2])@ == x);
                        }
                    }
                }
            }
            i += 1;
        }
    }

    /// The location cached for a name, if the name was ever registered.
    pub fn cached_location(&self, location: &str) -> (r: Option<i32>)
        ensures
            r == uniform_lookup(self.uniforms@, location@),
    {
        let wanted = location.to_owned();
        let n = self.uniforms.len();
        proof {
            assert(self.uniforms@.skip(0) =~= self.uniforms@);
        }
        let mut i: usize = 0;
        while i < n
            invariant
                wanted@ == location@,
                n == self.uniforms@.len(),
                i <= n,
                uniform_lookup(self.uniforms@, location@) == uniform_lookup(
                    self.uniforms@.skip(i as int),
                    location@,
                ),
            decreases n - i,
        {
            let ghost entries = self.uniforms@;
            assert(entries.skip(i as int)[0] == entries[i as int]);
            if self.uniforms[i].0 == wanted {
                return Some(self.uniforms[i].1);
            }
            proof {
                assert(entries.skip(i as int).drop_first() =~= entries.skip(i as int + 1));
            }
            i += 1;
        }
        None
    }

    /// Sets a three-component uniform through a cached name: looks the name
    /// up in the cache and issues exactly one driver uniform-set call with
    /// the vector's components. A name never registered is a programmer
    /// error: the call fails and nothing reaches the driver.
    pub fn set_uniform_vec3(
        &self,
        st: &mut DriverState,
        location: &str,
        vector: &crate::engine_types::Vector3<u32>,
    ) -> (r: Result<(), EngineError>)
        requires
            old(st).wf(),
        ensures
            final(st).wf(),
            uniform_lookup(self.uniforms@, location@) is None ==> r == Err::<(), EngineError>(
                EngineError::UnregisteredUniform,
            ) && *final(st) == *old(st),
            uniform_lookup(self.uniforms@, location@) is Some ==> {
                let loc = uniform_lookup(self.uniforms@, location@)->Some_0;
                &&& *final(st) == (DriverState {
                    error_flag: final(st).error_flag,
                    trace: final(st).trace,
                    ..*old(st)
                })
                &&& final(st).trace@ == old(st).trace@.push(
                    GlCall::Uniform3f(loc, vector.x, vector.y, vector.z),
                )
                &&& (old(st).uniform_check(loc) is None ==> final(st).error_flag == old(
                    st,
                ).error_flag && r is Ok)
                &&& (old(st).uniform_check(loc) is Some ==> final(st).error_flag
                    == crate::driver_state::flag_after(
                    old(st).error_flag,
                    old(st).uniform_check(loc)->Some_0,
                ) && r == Err::<(), EngineError>(
                    EngineError::Driver(old(st).uniform_check(loc)->Some_0),
                ))
            },
    {
        match self.cached_location(location) {
            None => Err(EngineError::UnregisteredUniform),
            Some(loc) => st.uniform3f(loc, vector.x, vector.y, vector.z),
        }
    }

    /// Sets a four-component uniform through a cached name, with the same
    /// contract as the three-component form.
    pub fn set_uniform_vec4(
        &self,
        st: &mut DriverState,
        location: &str,
        vector: &crate::engine_types::Vector4<u32>,
    ) -> (r: Result<(), EngineError>)
        requires
            old(st).wf(),
        ensures
            final(st).wf(),
            uniform_lookup(self.uniforms@, location@) is None ==> r == Err::<(), EngineError>(
                EngineError::UnregisteredUniform,
            ) && *final(st) == *old(st),
            uniform_lookup(self.uniforms@, location@) is Some ==> {
                let loc = uniform_lookup(self.uniforms@, location@)->Some_0;
                &&& *final(st) == (DriverState {
                    error_flag: final(st).error_flag,
                    trace: final(st).trace,
                    ..*old(st)
                })
                &&& final(st).trace@ == old(st).trace@.push(
                    GlCall::Uniform4f(loc, vector.x, vector.y, vector.z, vector.w),
                )
                &&& (old(st).uniform_check(loc) is None ==> final(st).error_flag == old(
                    st,
                ).error_flag && r is Ok)
                &&& (old(st).uniform_check(loc) is Some ==> final(st).error_flag
                    == crate::driver_state::flag_after(
                    old(st).error_flag,
                    old(st).uniform_check(loc)->Some_0,
                ) && r == Err::<(), EngineError>(
                    EngineError::Driver(old(st).uniform_check(loc)->Some_0),
                ))
            },
    {
        match self.cached_location(location) {
            None => Err(EngineError::UnregisteredUniform),
            Some(loc) => st.uniform4f(loc, vector.x, vector.y, vector.z, vector.w),
        }
    }

    /// Releases the program at the end of its owning scope: deactivates it,
    /// then detaches and deletes each attached shader, then deletes the
    /// program handle — mirroring the unbind-before-delete rule. Consuming
    /// the program, which owns its shaders, makes every deletion happen
    /// exactly once, and no driver error is raised.
    pub fn release(self, st: &mut DriverState)
        requires
            old(st).wf(),
            self.valid(*old(st)),
        ensures
            final(st).wf(),
            !final(st).program_live(self.program_id),
            forall|i: int|
                0 <= i < self.shaders@.len() ==> !final(st).shader_live(
                    (#[trigger] self.shaders@[i]).shader_id,
                ),
            final(st).active_program == 0,
            final(st).error_flag == old(st).error_flag,
            final(st).buffers == old(st).buffers,
            final(st).vaos == old(st).vaos,
            final(st).bound_array_buffer == old(st).bound_array_buffer,
            final(st).bound_element_array_buffer == old(st).bound_element_array_buffer,
            final(st).bound_vertex_array == old(st).bound_vertex_array,
            final(st).shaders@.len() == old(st).shaders@.len(),
            forall|j: int|
                0 <= j < old(st).shaders@.len() ==> final(st).shaders@[j] == (if self.shader_ids(
                ).contains((j + 1) as u32) {
                    (crate::driver_state::ShaderRecord { alive: false, ..old(st).shaders@[j] })
                } else {
                    old(st).shaders@[j]
                }),
            final(st).programs@.len() == old(st).programs@.len(),
            forall|j: int|
                0 <= j < old(st).programs@.len() && j != self.program_id - 1
                    ==> final(st).programs@[j] == old(st).programs@[j],
            !final(st).programs@[self.program_id as int - 1].alive,
            final(st).programs@[self.program_id as int - 1].attached@.len() == 0,
            final(st).trace@ == old(st).trace@ + release_calls(self.program_id, self.shader_ids()),
    {
        let pid = self.program_id;
        let ghost ids = self.shader_ids();
        let _deactivated = st.use_program(0);
        let n = self.shaders.len();
        let mut i: usize = 0;
        while i < n
            invariant
                old(st).wf(),
                self.valid(*old(st)),
                pid == self.program_id,
                ids == self.shader_ids(),
                n == self.shaders@.len(),
                i <= n,
                st.wf(),
                st.buffers == old(st).buffers,
                st.vaos == old(st).vaos,
                st.bound_array_buffer == old(st).bound_array_buffer,
                st.bound_element_array_buffer == old(st).bound_element_array_buffer,
                st.bound_vertex_array == old(st).bound_vertex_array,
                st.active_program == 0,
                st.error_flag == old(st).error_flag,
                st.program_live(pid),
                st.shaders@.len() == old(st).shaders@.len(),
                forall|j: int|
                    0 <= j < old(st).shaders@.len() ==> st.shaders@[j] == (if ids.take(
                        i as int,
                    ).contains((j + 1) as u32) {
                        (crate::driver_state::ShaderRecord { alive: false, ..old(st).shaders@[j] })
                    } else {
                        old(st).shaders@[j]
                    }),
                st.programs@.len() == old(st).programs@.len(),
                forall|j: int|
                    0 <= j < old(st).programs@.len() && j != pid - 1 ==> st.programs@[j] == old(
                        st,
                    ).programs@[j],
                st.programs@[pid as int - 1].alive,
                st.programs@[pid as int - 1].attached@ == ids.skip(i as int),
                st.trace@ == old(st).trace@ + seq![GlCall::UseProgram(0)] + detach_delete_calls(
                    pid,
                    ids.take(i as int),
                ),
            decreases n - i,
        {
            let ghost shaders_before = st.shaders@;
            let sid = self.shaders[i].shader_id;
            proof {
                assert(ids[i as int] == sid);
                assert(ids.skip(i as int)[0] == sid);
            }
            st.detach_shader(pid, sid);
            proof {
                let a = ids.skip(i as int);
                let k = choose|k: int|
                    #![trigger a[k]]
                    {
                        &&& 0 <= k < a.len()
                        &&& a[k] == sid
                        &&& (forall|j: int| 0 <= j < k ==> a[j] != sid)
                        &&& st.programs@[pid as int - 1].attached@ == a.remove(k)
                    };
                assert(k == 0) by {
                    if k > 0 {
                        assert(a[0] != sid);
                    }
                }
                assert(a.remove(0) =~= ids.skip(i as int + 1));
                if ids.take(i as int).contains(sid) {
                    let j = choose|j: int|
                        0 <= j < i && (#[trigger] ids.take(i as int)[j]) == sid;
                    assert(self.shaders@[j].shader_id == self.shaders@[i as int].shader_id);
                    assert(false);
                }
                assert(self.shaders@[i as int].valid(*old(st)));
                assert(old(st).shader_live(sid));
                assert(st.shaders@[sid as int - 1] == old(st).shaders@[sid as int - 1]);
                assert(st.shader_live(sid));
            }
            st.delete_shader(sid);
            proof {
                assert(ids.take(i as int + 1) =~= ids.take(i as int).push(sid));
                lemma_detach_delete_calls_push(pid, ids.take(i as int), sid);
                assert(st.trace@ =~= old(st).trace@ + seq![GlCall::UseProgram(0)]
                    + detach_delete_calls(pid, ids.take(i as int + 1)));
                assert forall|j: int| 0 <= j < old(st).shaders@.len() implies st.shaders@[j] == (
                if ids.take(i as int + 1).contains((j + 1) as u32) {
                    (crate::driver_state::ShaderRecord { alive: false, ..old(st).shaders@[j] })
                } else {
                    old(st).shaders@[j]
                }) by {
                    if j + 1 == sid {
                        assert(ids.take(i as int + 1)[i as int] == sid);
                        assert(ids.take(i as int + 1).contains((j + 1) as u32));
                    } else {
                        if ids.take(i as int + 1).contains((j + 1) as u32) {
                            let k = choose|k: int|
                                0 <= k < i + 1 && (#[trigger] ids.take(i as int + 1)[k]) == (j
                                    + 1) as u32;
                            assert(k != i as int);
                            assert(ids.take(i as int)[k] == (j + 1) as u32);
                            assert(ids.take(i as int).contains((j + 1) as u32));
                        }
                        if ids.take(i as int).contains((j + 1) as u32) {
                            let k = choose|k: int|
                                0 <= k < i && (#[trigger] ids.take(i as int)[k]) == (j + 1) as u32;
                            assert(ids.take(i as int + 1)[k] == (j + 1) as u32);
                            assert(ids.take(i as int + 1).contains((j + 1) as u32));
                        }
                    }
                }
            }
            i += 1;
        }
        st.delete_program(pid);
        proof {
            assert(ids.take(n as int) =~= ids);
            assert(ids.skip(n as int) =~= Seq::<u32>::empty());
            assert(st.trace@ =~= old(st).trace@ + release_calls(pid, ids));
            assert forall|i2: int| 0 <= i2 < self.shaders@.len() implies !st.shader_live(
                (#[trigger] self.shaders@[i2]).shader_id,
            ) by {
                let h = self.shaders@[i2].shader_id;
                assert(ids[i2] == h);
                assert(ids.contains(h));
                assert(self.shaders@[i2].valid(*old(st)));
                assert(1 <= h as int <= old(st).shaders@.len());
                assert(st.shaders@[h as int - 1].alive == false);
            }
        }
    }
}

/// The detach-and-delete pairs a release issues, one per attached shader,
/// in attachment order.
pub open spec fn detach_delete_calls(p: u32, ids: Seq<u32>) -> Seq<GlCall>
    decreases ids.len(),
{
    if ids.len() == 0 {
        Seq::empty()
    } else {
        seq![GlCall::DetachShader(p, ids[0]), GlCall::DeleteShader(ids[0])] + detach_delete_calls(
            p,
            ids.drop_first(),
        )
    }
}

/// Every command a release issues: deactivate, detach and delete each
/// shader, delete the program.
pub open spec fn release_calls(p: u32, ids: Seq<u32>) -> Seq<GlCall> {
    seq![GlCall::UseProgram(0)] + detach_delete_calls(p, ids) + seq![GlCall::DeleteProgram(p)]
}

/// How many commands of the trace delete shader `h`.
pub open spec fn count_shader_deletes(calls: Seq<GlCall>, h: u32) -> nat
    decreases calls.len(),
{
    if calls.len() == 0 {
        0
    } else {
        (if calls[0] == GlCall::DeleteShader(h) {
            1nat
        } else {
            0nat
        }) + count_shader_deletes(calls.drop_first(), h)
    }
}

proof fn lemma_detach_delete_calls_push(p: u32, ids: Seq<u32>, x: u32)
    ensures
        detach_delete_calls(p, ids.push(x)) == detach_delete_calls(p, ids) + seq![
            GlCall::DetachShader(p, x),
            GlCall::DeleteShader(x),
        ],
    decreases ids.len(),
{
    if ids.len() == 0 {
        assert(ids.push(x)[0] == x);
        assert(ids.push(x).drop_first() =~= Seq::<u32>::empty());
        assert(detach_delete_calls(p, Seq::<u32>::empty()) == Seq::<GlCall>::empty());
        assert(detach_delete_calls(p, ids.push(x)) =~= detach_delete_calls(p, ids) + seq![
            GlCall::DetachShader(p, x),
            GlCall::DeleteShader(x),
        ]);
    } else {
        assert(ids.push(x)[0] == ids[0]);
        assert(ids.push(x).drop_first() =~= ids.drop_first().push(x));
        lemma_detach_delete_calls_push(p, ids.drop_first(), x);
        assert(detach_delete_calls(p, ids.push(x)) =~= detach_delete_calls(p, ids) + seq![
            GlCall::DetachShader(p, x),
            GlCall::DeleteShader(x),
        ]);
    }
}

/// Counting shader deletions distributes over trace concatenation.
pub proof fn lemma_count_shader_deletes_concat(a: Seq<GlCall>, b: Seq<GlCall>, h: u32)
    ensures
        count_shader_deletes(a + b, h) == count_shader_deletes(a, h) + count_shader_deletes(b, h),
    decreases a.len(),
{
    if a.len() == 0 {
        assert(a + b =~= b);
    } else {
        assert((a + b)[0] == a[0]);
        assert((a + b).drop_first() =~= a.drop_first() + b);
        lemma_count_shader_deletes_concat(a.drop_first(), b, h);
    }
}

proof fn lemma_count_detach_delete(p: u32, ids: Seq<u32>, h: u32)
    requires
        forall|i: int, j: int| 0 <= i < j < ids.len() ==> ids[i] != ids[j],
    ensures
        count_shader_deletes(detach_delete_calls(p, ids), h) == (if ids.contains(h) {
            1nat
        } else {
            0nat
        }),
    decreases ids.len(),
{
    if ids.len() == 0 {
        assert(!ids.contains(h));
    } else {
        let pair = seq![GlCall::DetachShader(p, ids[0]), GlCall::DeleteShader(ids[0])];
        let rest = ids.drop_first();
        lemma_count_shader_deletes_concat(pair, detach_delete_calls(p, rest), h);
        assert(pair.drop_first() =~= seq![GlCall::DeleteShader(ids[0])]);
        assert(seq![GlCall::DeleteShader(ids[0])].drop_first() =~= Seq::<GlCall>::empty());
        assert(count_shader_deletes(Seq::<GlCall>::empty(), h) == 0);
        assert(count_shader_deletes(seq![GlCall::DeleteShader(ids[0])], h) == (if ids[0] == h {
            1nat
        } else {
            0nat
        }));
        assert(count_shader_deletes(pair, h) == (if ids[0] == h {
            1nat
        } else {
            0nat
        }));
        assert forall|i: int, j: int| 0 <= i < j < rest.len() implies rest[i] != rest[j] by {
            assert(ids[i + 1] != ids[j + 1]);
        }
        lemma_count_detach_delete(p, rest, h);
        if ids[0] == h {
            if rest.contains(h) {
                let k = choose|k: int| 0 <= k < rest.len() && (#[trigger] rest[k]) == h;
                assert(ids[k + 1] == h);
                assert(ids[0] != ids[k + 1]);
                assert(false);
            }
            assert(ids.contains(h)) by {
                assert(ids[0] == h);
            }
        } else {
            if ids.contains(h) {
                let k = choose|k: int| 0 <= k < ids.len() && (#[trigger] ids[k]) == h;
                assert(k != 0);
                assert(rest[k - 1] == h);
                assert(rest.contains(h));
            }
            if rest.contains(h) {
                let k = choose|k: int| 0 <= k < rest.len() && (#[trigger] rest[k]) == h;
                assert(ids[k + 1] == h);
                assert(ids.contains(h));
            }
        }
    }
}

/// Destruction-ordering law: the commands a program release issues delete
/// each of its pairwise distinct shader handles exactly once — across the
/// program's and the shaders' combined lifetime no handle is deleted
/// twice, since the program owns its shaders and nothing else deletes
/// them.
pub proof fn lemma_release_deletes_each_shader_once(p: u32, ids: Seq<u32>, h: u32)
    requires
        ids.contains(h),
        forall|i: int, j: int| 0 <= i < j < ids.len() ==> ids[i] != ids[j],
    ensures
        count_shader_deletes(release_calls(p, ids), h) == 1,
{
    let first = seq![GlCall::UseProgram(0)];
    let last = seq![GlCall::DeleteProgram(p)];
    lemma_count_shader_deletes_concat(first + detach_delete_calls(p, ids), last, h);
    lemma_count_shader_deletes_concat(first, detach_delete_calls(p, ids), h);
    assert(first.drop_first() =~= Seq::<GlCall>::empty());
    assert(last.drop_first() =~= Seq::<GlCall>::empty());
    assert(count_shader_deletes(Seq::<GlCall>::empty(), h) == 0);
    assert(count_shader_deletes(first, h) == 0);
    assert(count_shader_deletes(last, h) == 0);
    lemma_count_detach_delete(p, ids, h);
}

/// Attachment-order law: whether every attached shader compiled depends
/// only on which shaders are attached, never on the order they were handed
/// over in — so attachment order is irrelevant to linking semantics, whose
/// only gate over the attachments is that all of them compiled.
pub proof fn lemma_attachment_order_irrelevant(a: Seq<Shader>, b: Seq<Shader>)
    requires
        a.to_multiset() == b.to_multiset(),
    ensures
        (forall|i: int| 0 <= i < a.len() ==> (#[trigger] a[i]).compiled) == (forall|i: int|
            0 <= i < b.len() ==> (#[trigger] b[i]).compiled),
{
    a.to_multiset_ensures();
    b.to_multiset_ensures();
    if forall|i: int| 0 <= i < a.len() ==> (#[trigger] a[i]).compiled {
        assert forall|i: int| 0 <= i < b.len() implies (#[trigger] b[i]).compiled by {
            let x = b[i];
            assert(b.contains(x));
            assert(a.to_multiset().count(x) > 0);
            assert(a.contains(x));
            let j = choose|j: int| 0 <= j < a.len() && a[j] == x;
            assert(a[j].compiled);
        }
    }
    if forall|i: int| 0 <= i < b.len() ==> (#[trigger] b[i]).compiled {
        assert forall|i: int| 0 <= i < a.len() implies (#[trigger] a[i]).compiled by {
            let x = a[i];
            assert(a.contains(x));
            assert(b.to_multiset().count(x) > 0);
            assert(b.contains(x));
            let j = choose|j: int| 0 <= j < b.len() && b[j] == x;
            assert(b[j].compiled);
        }
    }
}

/// How many commands of the trace set a uniform.
pub open spec fn count_uniform_set_calls(calls: Seq<GlCall>) -> nat
    decreases calls.len(),
{
    if calls.len() == 0 {
        0
    } else {
        (if calls[0] is Uniform3f || calls[0] is Uniform4f {
            1nat
        } else {
            0nat
        }) + count_uniform_set_calls(calls.drop_first())
    }
}

proof fn lemma_count_uniform_set_calls_push(calls: Seq<GlCall>, call: GlCall)
    ensures
        count_uniform_set_calls(calls.push(call)) == count_uniform_set_calls(calls) + (if call
            is Uniform3f || call is Uniform4f {
            1nat
        } else {
            0nat
        }),
    decreases calls.len(),
{
    if calls.len() == 0 {
        assert(calls.push(call).drop_first() =~= Seq::<GlCall>::empty());
        assert(count_uniform_set_calls(Seq::<GlCall>::empty()) == 0);
    } else {
        assert(calls.push(call)[0] == calls[0]);
        assert(calls.push(call).drop_first() =~= calls.drop_first().push(call));
        lemma_count_uniform_set_calls_push(calls.drop_first(), call);
    }
}

/// Uniform-dispatch law: setting a registered uniform appends exactly one
/// uniform-set command to the trace, carrying the cached location and the
/// vector's components — the trace `set_uniform_vec3` leaves behind is
/// `pre.push(Uniform3f(loc, x, y, z))`, and that is one set call more, at
/// the end. (An unregistered name fails before anything reaches the
/// driver, by the same function's contract.)
pub proof fn lemma_registered_set_issues_exactly_one_call(
    pre: Seq<GlCall>,
    post: Seq<GlCall>,
    loc: i32,
    x: u32,
    y: u32,
    z: u32,
)
    requires
        post == pre.push(GlCall::Uniform3f(loc, x, y, z)),
    ensures
        count_uniform_set_calls(post) == count_uniform_set_calls(pre) + 1,
        post.last() == GlCall::Uniform3f(loc, x, y, z),
{
    lemma_count_uniform_set_calls_push(pre, GlCall::Uniform3f(loc, x, y, z));
}

/// Builds the standard two-stage program: compiles a vertex and a fragment
/// shader from the given sources, attaches both to a fresh program, and
/// links it. The front end supplies the driver's verdicts; loading the
/// sources from disk is its business too.
pub fn make_shader_stuff(
    st: &mut DriverState,
    vertex_source: String,
    fragment_source: String,
    vertex_report: &CompileReport,
    fragment_report: &CompileReport,
    link_report: LinkReport,
) -> (program: ShaderProgram)
    requires
        old(st).wf(),
        old(st).shaders@.len() + 2 <= u32::MAX,
        old(st).programs@.len() < u32::MAX,
        vertex_report.created,
        fragment_report.created,
    ensures
        final(st).wf(),
        program.valid(*final(st)),
        program.program_id == old(st).programs@.len() + 1,
        program.shaders@.len() == 2,
        program.shaders@[0].shader_id == old(st).shaders@.len() + 1,
        program.shaders@[1].shader_id == old(st).shaders@.len() + 2,
        program.shaders@[0].shader_type == ShaderType::Vertex,
        program.shaders@[1].shader_type == ShaderType::Fragment,
        program.shaders@[0].compiled == vertex_report.ok,
        program.shaders@[1].compiled == fragment_report.ok,
        program.linked == (link_report.ok && vertex_report.ok && fragment_report.ok),
        program.uniforms@.len() == 0,
        final(st).shaders@.len() == old(st).shaders@.len() + 2,
        final(st).programs@.len() == old(st).programs@.len() + 1,
        final(st).buffers == old(st).buffers,
        final(st).vaos == old(st).vaos,
        final(st).bound_array_buffer == old(st).bound_array_buffer,
        final(st).bound_element_array_buffer == old(st).bound_element_array_buffer,
        final(st).bound_vertex_array == old(st).bound_vertex_array,
        final(st).active_program == old(st).active_program,
        final(st).error_flag == old(st).error_flag,
    {
    let vertex_shader = Shader::new(st, ShaderType::Vertex, vertex_source, vertex_report);
    let fragment_shader = Shader::new(st, ShaderType::Fragment, fragment_source, fragment_report);
    let mut shaders: Vec<Shader> = Vec::new();
    shaders.push(vertex_shader);
    shaders.push(fragment_shader);
    let mut shader_program = ShaderProgram::new(st, shaders);
    shader_program.link(st, link_report);
    proof {
        assert(shader_program.shaders@[0] == vertex_shader);
        assert(shader_program.shaders@[1] == fragment_shader);
        assert(shader_program.all_shaders_compiled() == (vertex_report.ok
            && fragment_report.ok)) by {
            if shader_program.all_shaders_compiled() {
                assert(shader_program.shaders@[0].compiled);
                assert(shader_program.shaders@[1].compiled);
            }
            if vertex_report.ok && fragment_report.ok {
                assert forall|i: int|
                    0 <= i < shader_program.shaders@.len() implies (
                #[trigger] shader_program.shaders@[i]).compiled by {
                    assert(i == 0 || i == 1);
                }
            }
        }
    }
    shader_program
}

} // verus!
