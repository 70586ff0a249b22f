//! The graphics device as a contract.
//!
//! `GlApi` stands for the loaded graphics function table that the host
//! shares with every GPU object wrapper.  Each method carries a contract
//! over an explicit device model (`GlModel`): which shader, program,
//! buffer and vertex-array ids are live, what they hold, and what is
//! currently bound.  Object ids are never 0; a live id has exactly one
//! owner, and releasing it requires it to be live, so a release can
//! happen at most once.  Outcomes the driver alone decides — whether a
//! compile or link succeeds — are left open: the contracts say only how
//! the model changes for either answer.
//!
//! The crate itself implements the trait with an in-memory capture
//! device; a host may implement it over a real driver.

use vstd::prelude::*;
use crate::render_gl::data::VertexAttrib;

verus! {

/// The stage a shader object belongs to, fixed at creation.
#[derive(Clone, Copy, PartialEq, Eq, Structural, Debug)]
pub enum ShaderKind {
    Vertex,
    Fragment,
}

/// The binding target a buffer is used through.
#[derive(Clone, Copy, PartialEq, Eq, Structural, Debug)]
pub enum BufferTarget {
    /// Vertex data.
    Array,
    /// Index data.
    ElementArray,
}

/// The primitive assembly mode of a draw call.
#[derive(Clone, Copy, PartialEq, Eq, Structural, Debug)]
pub enum DrawMode {
    Triangles,
    TriangleStrip,
}

/// The model of one shader object: its stage, the source last uploaded,
/// and whether the last compile succeeded.
pub ghost struct ShaderModel {
    pub kind: ShaderKind,
    pub source: Seq<u8>,
    pub compiled: bool,
}

/// The model of one program object: the shaders currently attached, and,
/// if the last link succeeded, the models of the shaders that were
/// attached at that moment.  A program with `linked` set is fully usable;
/// one without is never visible as partially linked.
pub ghost struct ProgramModel {
    pub attached: Seq<u32>,
    pub linked: Option<Seq<ShaderModel>>,
}

/// One recorded attribute pointer of a vertex array: the buffer it reads
/// from, the field description, and the record stride.
pub ghost struct AttribBinding {
    pub buffer: u32,
    pub attrib: VertexAttrib,
    pub stride: usize,
}

/// The model of one vertex array: its recorded attribute pointers by
/// location, and the element buffer bound into it.
#[verifier::ext_equal]
pub ghost struct VaoModel {
    pub attribs: Map<u32, AttribBinding>,
    pub element: u32,
}

/// The whole device model: the live objects of each class and the
/// current bindings.  An id of 0 always means "none".
#[verifier::ext_equal]
pub ghost struct GlModel {
    pub shaders: Map<u32, ShaderModel>,
    pub programs: Map<u32, ProgramModel>,
    pub buffers: Map<u32, Seq<u8>>,
    pub vaos: Map<u32, VaoModel>,
    /// The buffer bound to the vertex-data target.
    pub bound_array: u32,
    /// The buffer bound to the index-data target while no vertex array is
    /// bound; with one bound, index bindings live in the vertex array.
    pub bound_element: u32,
    /// The vertex array currently bound.
    pub bound_vao: u32,
    /// The program currently in use.
    pub used_program: u32,
}

impl GlModel {
    /// This model with one shader entry replaced.
    pub open spec fn with_shader(self, id: u32, s: ShaderModel) -> GlModel {
        GlModel { shaders: self.shaders.insert(id, s), ..self }
    }

    /// This model with one program entry replaced.
    pub open spec fn with_program(self, id: u32, p: ProgramModel) -> GlModel {
        GlModel { programs: self.programs.insert(id, p), ..self }
    }

    /// This model with the attribute map of one vertex array replaced.
    pub open spec fn with_vao_attribs(self, id: u32, attribs: Map<u32, AttribBinding>) -> GlModel {
        GlModel {
            vaos: self.vaos.insert(id, VaoModel { attribs, ..self.vaos[id] }),
            ..self
        }
    }

    /// This model after recording one attribute pointer on the bound
    /// vertex array, reading from the bound array buffer.
    pub open spec fn with_attrib(self, location: u32, attrib: VertexAttrib, stride: usize) -> GlModel {
        self.with_vao_attribs(
            self.bound_vao,
            self.vaos[self.bound_vao].attribs.insert(
                location,
                AttribBinding { buffer: self.bound_array, attrib, stride },
            ),
        )
    }

    /// The buffer currently bound to `target`, as affected by the bound
    /// vertex array for the index-data target.
    pub open spec fn bound(self, target: BufferTarget) -> u32 {
        match target {
            BufferTarget::Array => self.bound_array,
            BufferTarget::ElementArray => {
                if self.bound_vao != 0 {
                    self.vaos[self.bound_vao].element
                } else {
                    self.bound_element
                }
            },
        }
    }

    /// This model after binding `id` to `target`.
    pub open spec fn with_binding(self, target: BufferTarget, id: u32) -> GlModel {
        match target {
            BufferTarget::Array => GlModel { bound_array: id, ..self },
            BufferTarget::ElementArray => {
                if self.bound_vao != 0 {
                    GlModel {
                        vaos: self.vaos.insert(
                            self.bound_vao,
                            VaoModel { element: id, ..self.vaos[self.bound_vao] },
                        ),
                        ..self
                    }
                } else {
                    GlModel { bound_element: id, ..self }
                }
            },
        }
    }

    /// Whether a program id is live and fully linked, hence usable for
    /// rendering.
    pub open spec fn usable_program(self, id: u32) -> bool {
        self.programs.contains_key(id) && self.programs[id].linked is Some
    }

    /// Whether every direct binding point holds a live id or none.  A
    /// well-behaved host never leaves a binding dangling: releasing a
    /// bound object resets its binding point.
    pub open spec fn bindings_wf(self) -> bool {
        &&& self.bound_array != 0 ==> self.buffers.contains_key(self.bound_array)
        &&& self.bound_element != 0 ==> self.buffers.contains_key(self.bound_element)
        &&& self.bound_vao != 0 ==> self.vaos.contains_key(self.bound_vao)
    }
}

/// The graphics function table, with one method per routed call.
///
/// A `create`/`gen` method hands out `None` only on unrecoverable loss of
/// the driver or its context; with `Some(id)` the id is fresh and not 0.
pub trait GlApi: Sized {
    /// The current device model.  Implementations give this its
    /// meaning; the default leaves it unconstrained.
    open spec fn model(&self) -> GlModel {
        vstd::pervasive::arbitrary()
    }

    /// Allocates a shader object of the given stage with empty source.
    fn create_shader(&mut self, kind: ShaderKind) -> (r: Option<u32>)
        ensures
            match r {
                Some(id) => {
                    &&& id != 0
                    &&& !old(self).model().shaders.contains_key(id)
                    &&& final(self).model() == old(self).model().with_shader(
                        id,
                        ShaderModel { kind, source: Seq::empty(), compiled: false },
                    )
                },
                None => final(self).model() == old(self).model(),
            },
    ;

    /// Replaces the source of a shader object; its compile status is
    /// untouched until the next compile.
    fn shader_source(&mut self, id: u32, source: &Vec<u8>)
        requires
            old(self).model().shaders.contains_key(id),
        ensures
            final(self).model() == old(self).model().with_shader(
                id,
                ShaderModel { source: source@, ..old(self).model().shaders[id] },
            ),
    ;

    /// Compiles a shader object and reports the resulting status.  Whether
    /// the driver accepts the source is its own decision.
    fn compile_shader(&mut self, id: u32) -> (ok: bool)
        requires
            old(self).model().shaders.contains_key(id),
        ensures
            final(self).model() == old(self).model().with_shader(
                id,
                ShaderModel { compiled: ok, ..old(self).model().shaders[id] },
            ),
    ;

    /// The driver's diagnostic log for a shader object, passed through
    /// unmodified.
    fn shader_info_log(&self, id: u32) -> (log: String)
        requires
            self.model().shaders.contains_key(id),
    ;

    /// Releases a shader object.  The id must be live, so each id is
    /// released at most once.
    fn delete_shader(&mut self, id: u32)
        requires
            old(self).model().shaders.contains_key(id),
        ensures
            final(self).model() == (GlModel {
                shaders: old(self).model().shaders.remove(id),
                ..old(self).model()
            }),
    ;

    /// Allocates a program object with nothing attached and no link.
    fn create_program(&mut self) -> (r: Option<u32>)
        ensures
            match r {
                Some(id) => {
                    &&& id != 0
                    &&& !old(self).model().programs.contains_key(id)
                    &&& final(self).model() == old(self).model().with_program(
                        id,
                        ProgramModel { attached: Seq::empty(), linked: None },
                    )
                },
                None => final(self).model() == old(self).model(),
            },
    ;

    /// Attaches a live shader to a program it is not yet attached to.
    fn attach_shader(&mut self, program: u32, shader: u32)
        requires
            old(self).model().programs.contains_key(program),
            old(self).model().shaders.contains_key(shader),
            !old(self).model().programs[program].attached.contains(shader),
        ensures
            final(self).model() == old(self).model().with_program(
                program,
                ProgramModel {
                    attached: old(self).model().programs[program].attached.push(shader),
                    ..old(self).model().programs[program]
                },
            ),
    ;

    /// Links a program from its attached shaders and reports the status.
    /// On success the program's usable state becomes exactly the models of
    /// the shaders attached now; on failure no usable state remains.
    fn link_program(&mut self, program: u32) -> (ok: bool)
        requires
            old(self).model().programs.contains_key(program),
            forall|i: int|
                0 <= i < old(self).model().programs[program].attached.len()
                    ==> old(self).model().shaders.contains_key(
                    #[trigger] old(self).model().programs[program].attached[i],
                ),
        ensures
            final(self).model() == old(self).model().with_program(
                program,
                ProgramModel {
                    attached: old(self).model().programs[program].attached,
                    linked: if ok {
                        Some(
                            old(self).model().programs[program].attached.map(
                                |i: int, sid: u32| old(self).model().shaders[sid],
                            ),
                        )
                    } else {
                        None
                    },
                },
            ),
    ;

    /// The driver's diagnostic log for a program object, passed through
    /// unmodified.
    fn program_info_log(&self, id: u32) -> (log: String)
        requires
            self.model().programs.contains_key(id),
    ;

    /// Detaches the first attached occurrence of a shader from a program.
    /// A finished link is not undone by detaching.
    fn detach_shader(&mut self, program: u32, shader: u32)
        requires
            old(self).model().programs.contains_key(program),
            old(self).model().programs[program].attached.contains(shader),
        ensures
            final(self).model() == old(self).model().with_program(
                program,
                ProgramModel {
                    attached: old(self).model().programs[program].attached.remove_value(shader),
                    ..old(self).model().programs[program]
                },
            ),
    ;

    /// Releases a program object.  The id must be live, so each id is
    /// released at most once.
    fn delete_program(&mut self, id: u32)
        requires
            old(self).model().programs.contains_key(id),
        ensures
            final(self).model() == (GlModel {
                programs: old(self).model().programs.remove(id),
                ..old(self).model()
            }),
    ;

    /// Makes a fully linked program the one rendering uses.
    fn use_program(&mut self, id: u32)
        requires
            old(self).model().usable_program(id),
        ensures
            final(self).model() == (GlModel { used_program: id, ..old(self).model() }),
    ;

    /// Allocates a buffer object with empty contents.
    fn gen_buffer(&mut self) -> (r: Option<u32>)
        ensures
            match r {
                Some(id) => {
                    &&& id != 0
                    &&& !old(self).model().buffers.contains_key(id)
                    &&& final(self).model() == (GlModel {
                        buffers: old(self).model().buffers.insert(id, Seq::empty()),
                        ..old(self).model()
                    })
                },
                None => final(self).model() == old(self).model(),
            },
    ;

    /// Binds a buffer (or 0 for none) to a target.  While a vertex array
    /// is bound, the index-data binding is recorded in the vertex array.
    fn bind_buffer(&mut self, target: BufferTarget, id: u32)
        requires
            id == 0 || old(self).model().buffers.contains_key(id),
            old(self).model().bound_vao != 0 ==> old(self).model().vaos.contains_key(
                old(self).model().bound_vao,
            ),
        ensures
            final(self).model() == old(self).model().with_binding(target, id),
    ;

    /// Replaces the whole contents of the buffer bound to `target` for
    /// static drawing.
    fn buffer_data(&mut self, target: BufferTarget, data: &Vec<u8>)
        requires
            old(self).model().bound_vao != 0 ==> old(self).model().vaos.contains_key(
                old(self).model().bound_vao,
            ),
            old(self).model().bound(target) != 0,
            old(self).model().buffers.contains_key(old(self).model().bound(target)),
        ensures
            final(self).model() == (GlModel {
                buffers: old(self).model().buffers.insert(
                    old(self).model().bound(target),
                    data@,
                ),
                ..old(self).model()
            }),
    ;

    /// Releases a buffer object, unbinding it from the direct binding
    /// points if bound there.  The id must be live, so each id is released
    /// at most once.
    fn delete_buffer(&mut self, id: u32)
        requires
            old(self).model().buffers.contains_key(id),
        ensures
            final(self).model() == (GlModel {
                buffers: old(self).model().buffers.remove(id),
                bound_array: if old(self).model().bound_array == id {
                    0
                } else {
                    old(self).model().bound_array
                },
                bound_element: if old(self).model().bound_element == id {
                    0
                } else {
                    old(self).model().bound_element
                },
                ..old(self).model()
            }),
    ;

    /// Allocates a vertex array with no recorded attributes and no element
    /// buffer.
    fn gen_vertex_array(&mut self) -> (r: Option<u32>)
        ensures
            match r {
                Some(id) => {
                    &&& id != 0
                    &&& !old(self).model().vaos.contains_key(id)
                    &&& final(self).model() == (GlModel {
                        vaos: old(self).model().vaos.insert(
                            id,
                            VaoModel { attribs: Map::empty(), element: 0 },
                        ),
                        ..old(self).model()
                    })
                },
                None => final(self).model() == old(self).model(),
            },
    ;

    /// Binds a vertex array (or 0 for none).
    fn bind_vertex_array(&mut self, id: u32)
        requires
            id == 0 || old(self).model().vaos.contains_key(id),
        ensures
            final(self).model() == (GlModel { bound_vao: id, ..old(self).model() }),
    ;

    /// Records one attribute pointer on the bound vertex array, reading
    /// from the bound array buffer, and enables the attribute.
    fn vertex_attrib_pointer(&mut self, attrib: &VertexAttrib, stride: usize)
        requires
            old(self).model().bound_vao != 0,
            old(self).model().vaos.contains_key(old(self).model().bound_vao),
            old(self).model().bound_array != 0,
            old(self).model().buffers.contains_key(old(self).model().bound_array),
        ensures
            final(self).model() == old(self).model().with_attrib(attrib.location, *attrib, stride),
    ;

    /// Releases a vertex array, unbinding it if bound.  The id must be
    /// live, so each id is released at most once.
    fn delete_vertex_array(&mut self, id: u32)
        requires
            old(self).model().vaos.contains_key(id),
        ensures
            final(self).model() == (GlModel {
                vaos: old(self).model().vaos.remove(id),
                bound_vao: if old(self).model().bound_vao == id {
                    0
                } else {
                    old(self).model().bound_vao
                },
                ..old(self).model()
            }),
    ;

    /// Draws consecutive vertices with the program in use and the bound
    /// vertex array.  The device is left unchanged.
    fn draw_arrays(&mut self, mode: DrawMode, first: u32, count: u32)
        requires
            old(self).model().usable_program(old(self).model().used_program),
            old(self).model().bound_vao != 0,
            old(self).model().vaos.contains_key(old(self).model().bound_vao),
        ensures
            final(self).model() == old(self).model(),
    ;

    /// Draws indexed vertices, reading 32-bit indices from the bound
    /// vertex array's element buffer.  The device is left unchanged.
    fn draw_elements(&mut self, mode: DrawMode, count: u32)
        requires
            old(self).model().usable_program(old(self).model().used_program),
            old(self).model().bound_vao != 0,
            old(self).model().vaos.contains_key(old(self).model().bound_vao),
            old(self).model().vaos[old(self).model().bound_vao].element != 0,
            old(self).model().buffers.contains_key(
                old(self).model().vaos[old(self).model().bound_vao].element,
            ),
        ensures
            final(self).model() == old(self).model(),
    ;
}

} // verus!
