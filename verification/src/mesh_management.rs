//! Mesh assembly: geometry and texture coordinates bound under one vertex
//! array.
//!
//! Parsing mesh files is the unverified front end's business; this module
//! takes the parsed scalars (as bit patterns, see
//! [`crate::engine_types`]) and performs the verified resource assembly:
//! upload, binding, attribute setup and enabling, in the order the driver
//! requires.

use vstd::prelude::*;

use crate::driver_state::{AttribSlot, DriverState};
use crate::gl_loading::{
    targets_slot, BufferObject, BufferType, ElementType, VertexArrayObject,
    VertexAttributePointer,
};
use crate::opengl_utils::EngineError;

verus! {

/// A named mesh: its vertex array, its vertex buffer and its index buffer.
#[derive(Debug)]
pub struct Mesh {
    pub name: String,
    pub vao: VertexArrayObject,
    pub vbo: BufferObject,
    pub ebo: BufferObject,
}

impl Mesh {
    /// All three owned driver objects are live in `st` and hold what this
    /// mesh uploaded.
    pub open spec fn valid(self, st: DriverState) -> bool {
        &&& self.vao.valid(st)
        &&& self.vbo.valid(st)
        &&& self.ebo.valid(st)
    }

    /// Builds a mesh from position data and texture coordinates: the two
    /// are concatenated into one vertex buffer, an index buffer counts the
    /// scalars off in order, and a vertex array with a three-component
    /// position attribute and a two-component texture attribute is bound
    /// and configured against them. Empty combined data is a programmer
    /// error and nothing reaches the driver.
    pub fn new(
        st: &mut DriverState,
        name: &str,
        mesh_data: Vec<u32>,
        texture_coords: Vec<u32>,
    ) -> (r: Result<Mesh, EngineError>)
        requires
            old(st).wf(),
            old(st).buffers@.len() + 2 <= u32::MAX,
            old(st).vaos@.len() < u32::MAX,
            mesh_data@.len() + texture_coords@.len() <= u32::MAX,
        ensures
            final(st).wf(),
            mesh_data@.len() + texture_coords@.len() == 0 ==> r == Err::<Mesh, EngineError>(
                EngineError::EmptyBufferData,
            ) && *final(st) == *old(st),
            mesh_data@.len() + texture_coords@.len() > 0 ==> {
                let m = r->Ok_0;
                &&& r is Ok
                &&& m.name@ == name@
                &&& m.vbo.data@ == mesh_data@ + texture_coords@
                &&& m.ebo.data@ == Seq::new(
                    mesh_data@.len() + texture_coords@.len(),
                    |k: int| k as u32,
                )
                &&& m.vao.attrib_pointers@.len() == 2
                &&& m.valid(*final(st))
                &&& final(st).bound_vertex_array == m.vao.id
                &&& final(st).bound_array_buffer == m.vbo.id
                &&& final(st).bound_element_array_buffer == m.ebo.id
                &&& final(st).attrib_table(m.vao.id)[0] == (AttribSlot {
                    enabled: true,
                    size: 3,
                    elem: ElementType::Float,
                    normalized: false,
                    stride: 0,
                    offset: 0,
                    buffer: m.vbo.id,
                })
                &&& final(st).attrib_table(m.vao.id)[1] == (AttribSlot {
                    enabled: true,
                    size: 2,
                    elem: ElementType::Float,
                    normalized: false,
                    stride: 0,
                    offset: 12,
                    buffer: m.vbo.id,
                })
                &&& final(st).shaders == old(st).shaders
                &&& final(st).programs == old(st).programs
                &&& final(st).active_program == old(st).active_program
                &&& final(st).error_flag == old(st).error_flag
            },
    {
        let mut combined = mesh_data;
        let mut tex = texture_coords;
        combined.append(&mut tex);
        let total = combined.len();
        if total == 0 {
            return Err(EngineError::EmptyBufferData);
        }
        let mut indices: Vec<u32> = Vec::new();
        let mut i: usize = 0;
        while i < total
            invariant
                total <= u32::MAX,
                i <= total,
                indices@.len() == i,
                forall|k: int| 0 <= k < i ==> indices@[k] == k as u32,
            decreases total - i,
        {
            indices.push(i as u32);
            i += 1;
        }
        proof {
            assert(indices@ =~= Seq::new(total as nat, |k: int| k as u32));
        }

        let mut descriptors: Vec<VertexAttributePointer> = Vec::new();
        // Three position components, then two texture components; the
        // texture attribute starts after three four-byte scalars.
        descriptors.push(VertexAttributePointer::new((0, 3, ElementType::Float, false, 0, 0)));
        descriptors.push(VertexAttributePointer::new((1, 2, ElementType::Float, false, 0, 12)));
        let vao = VertexArrayObject::new(st, descriptors);

        let vbo = match BufferObject::new(st, combined, ElementType::Float, BufferType::ArrayBuffer) {
            Ok(b) => b,
            Err(e) => {
                return Err(e);
            },
        };
        let ebo = match BufferObject::new(
            st,
            indices,
            ElementType::UnsignedInt,
            BufferType::ElementArrayBuffer,
        ) {
            Ok(b) => b,
            Err(e) => {
                return Err(e);
            },
        };

        vao.bind(st);
        vbo.bind(st);
        ebo.bind(st);

        let set_first = vao.set_attrib_pointer(st, 0);
        let set_second = vao.set_attrib_pointer(st, 1);
        let enabled = vao.enable_attrib_pointers(st);
        proof {
            assert(set_first is Ok);
            assert(set_second is Ok);
            assert(enabled is Ok);
            assert(targets_slot(vao.attrib_pointers@, 0)) by {
                assert(vao.attrib_pointers@[0].index == 0);
            }
            assert(targets_slot(vao.attrib_pointers@, 1)) by {
                assert(vao.attrib_pointers@[1].index == 1);
            }
        }

        Ok(Mesh { name: name.to_owned(), vao, vbo, ebo })
    }

    /// The index buffer of the mesh.
    pub fn get_ebo(&self) -> (r: &BufferObject)
        ensures
            *r == self.ebo,
    {
        &self.ebo
    }
}

/// What the game layer asks of every object it owns: its mesh, and a
/// per-frame update.
pub trait GameObject {
    /// The mesh this object is drawn with.
    fn get_mesh(&self) -> &Mesh;

    /// Advances the object by one frame.
    fn update(&mut self);
}

} // verus!
