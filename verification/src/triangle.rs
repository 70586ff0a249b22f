//! A reloadable triangle: one program built from the `shaders/triangle`
//! resource pair, one vertex buffer, and one vertex array recording the
//! vertex layout.  The vertex record is twelve bytes of position followed
//! by four bytes of packed color, sixteen bytes in all.

use vstd::prelude::*;
use vstd::string::StringExecFns;
use crate::render_gl::api::GlApi;
use crate::render_gl::api::GlModel;
use crate::render_gl::api::DrawMode;
use crate::render_gl::api::ProgramModel;
use crate::render_gl::api::ShaderKind;
use crate::render_gl::api::ShaderModel;
use crate::render_gl::api::VaoModel;
use crate::render_gl::buffer::ArrayBuffer;
use crate::render_gl::buffer::VertexArray;
use crate::render_gl::data::apply_layout;
use crate::render_gl::data::vertex_attrib_pointers;
use crate::render_gl::data::vertex_layout;
use crate::render_gl::data::vertex_attribs;
use crate::render_gl::data::VERTEX_STRIDE;
use crate::render_gl::shader::build_err_fact;
use crate::render_gl::shader::Error;
use crate::render_gl::shader::Program;
use crate::resources::has_nil;
use crate::resources::FileStore;
use crate::resources::Reloadable;
use crate::resources::Resources;

verus! {

/// A triangle drawn from three vertices with a hot-reloadable program.
pub struct Triangle {
    program: Program,
    _vbo: ArrayBuffer,
    vao: VertexArray,
}

impl Triangle {
    /// The id of the owned program.
    pub closed spec fn spec_program_id(self) -> u32 {
        self.program.spec_id()
    }

    /// The id of the owned vertex buffer.
    pub closed spec fn spec_vbo_id(self) -> u32 {
        self._vbo.id()
    }

    /// The id of the owned vertex array.
    pub closed spec fn spec_vao_id(self) -> u32 {
        self.vao.id()
    }

    /// Whether program, buffer and vertex array are all live and the
    /// program fully linked on the given device model.
    pub closed spec fn spec_wf(self, m: GlModel) -> bool {
        &&& self.program.wf(m)
        &&& self._vbo.live(m)
        &&& self.vao.live(m)
    }

    /// The id of the owned program.
    pub fn program_id(&self) -> (r: u32)
        ensures
            r == self.spec_program_id(),
    {
        self.program.id()
    }

    /// The shader models the owned program was linked from.
    pub open spec fn linked_shaders(self, m: GlModel) -> Option<Seq<ShaderModel>> {
        m.programs[self.spec_program_id()].linked
    }

    /// Builds the triangle: the program from the `shaders/triangle`
    /// resource pair, the vertex buffer filled with the given vertex
    /// records, and the vertex array recording the layout.  On failure —
    /// a load, compile or link failure, or the driver handing out no id —
    /// everything already allocated is released again and the device is
    /// exactly as before.
    pub fn new<G: GlApi, F: FileStore>(
        res: &Resources,
        gl: &mut G,
        files: &mut F,
        vertices: &Vec<u8>,
    ) -> (r: Result<Triangle, Error>)
        requires
            old(gl).model().bindings_wf(),
        ensures
            match r {
                Ok(t) => {
                    &&& t.spec_wf(final(gl).model())
                    &&& t.watched() == seq![
                        res.resource_path("shaders/triangle"@ + ".vert"@),
                        res.resource_path("shaders/triangle"@ + ".frag"@),
                    ]
                    &&& !old(gl).model().programs.contains_key(t.spec_program_id())
                    &&& !old(gl).model().buffers.contains_key(t.spec_vbo_id())
                    &&& !old(gl).model().vaos.contains_key(t.spec_vao_id())
                    &&& match (
                        final(files).file(res.resource_path("shaders/triangle"@ + ".vert"@)),
                        final(files).file(res.resource_path("shaders/triangle"@ + ".frag"@)),
                    ) {
                        (Ok(vs), Ok(fs)) => {
                            &&& !has_nil(vs)
                            &&& !has_nil(fs)
                            &&& final(gl).model() == (GlModel {
                                programs: old(gl).model().programs.insert(
                                    t.spec_program_id(),
                                    ProgramModel {
                                        attached: Seq::empty(),
                                        linked: Some(
                                            seq![
                                                ShaderModel {
                                                    kind: ShaderKind::Vertex,
                                                    source: vs,
                                                    compiled: true,
                                                },
                                                ShaderModel {
                                                    kind: ShaderKind::Fragment,
                                                    source: fs,
                                                    compiled: true,
                                                },
                                            ],
                                        ),
                                    },
                                ),
                                buffers: old(gl).model().buffers.insert(
                                    t.spec_vbo_id(),
                                    vertices@,
                                ),
                                vaos: old(gl).model().vaos.insert(
                                    t.spec_vao_id(),
                                    VaoModel {
                                        attribs: apply_layout(
                                            Map::empty(),
                                            vertex_attribs(),
                                            t.spec_vbo_id(),
                                            VERTEX_STRIDE,
                                        ),
                                        element: 0,
                                    },
                                ),
                                bound_array: 0,
                                bound_vao: 0,
                                ..old(gl).model()
                            })
                        },
                        _ => false,
                    }
                },
                Err(e) => {
                    &&& final(gl).model() == old(gl).model()
                    &&& (e is ContextLost || build_err_fact(
                        *final(files),
                        *res,
                        "shaders/triangle"@,
                        e,
                    ))
                },
            },
    {
        let name = String::from_str("shaders/triangle");
        let program = match Program::from_resource_name(gl, res, files, &name) {
            Ok(program) => program,
            Err(e) => {
                return Err(e);
            },
        };
        let vao = match VertexArray::new(gl) {
            Some(vao) => vao,
            None => {
                program.release(gl);
                proof {
                    match (
                        files.file(res.resource_path("shaders/triangle"@ + ".vert"@)),
                        files.file(res.resource_path("shaders/triangle"@ + ".frag"@)),
                    ) {
                        (Ok(vs), Ok(fs)) => {
                            assert(gl.model() =~= old(gl).model());
                        },
                        _ => {
                            assert(false);
                        },
                    }
                }
                return Err(Error::ContextLost);
            },
        };
        let buffer = match ArrayBuffer::new(gl) {
            Some(buffer) => buffer,
            None => {
                vao.release(gl);
                program.release(gl);
                proof {
                    match (
                        files.file(res.resource_path("shaders/triangle"@ + ".vert"@)),
                        files.file(res.resource_path("shaders/triangle"@ + ".frag"@)),
                    ) {
                        (Ok(vs), Ok(fs)) => {
                            assert(gl.model() =~= old(gl).model());
                        },
                        _ => {
                            assert(false);
                        },
                    }
                }
                return Err(Error::ContextLost);
            },
        };
        vao.bind(gl);
        buffer.bind(gl);
        buffer.static_draw(gl, vertices);
        buffer.unbind(gl);

        buffer.bind(gl);
        let layout = vertex_layout();
        vertex_attrib_pointers(gl, &layout);
        buffer.unbind(gl);
        vao.unbind(gl);

        let t = Triangle { program, vao, _vbo: buffer };
        proof {
            match (
                files.file(res.resource_path("shaders/triangle"@ + ".vert"@)),
                files.file(res.resource_path("shaders/triangle"@ + ".frag"@)),
            ) {
                (Ok(vs), Ok(fs)) => {
                    assert(gl.model() =~~= (GlModel {
                        programs: old(gl).model().programs.insert(
                            t.spec_program_id(),
                            ProgramModel {
                                attached: Seq::empty(),
                                linked: Some(
                                    seq![
                                        ShaderModel {
                                            kind: ShaderKind::Vertex,
                                            source: vs,
                                            compiled: true,
                                        },
                                        ShaderModel {
                                            kind: ShaderKind::Fragment,
                                            source: fs,
                                            compiled: true,
                                        },
                                    ],
                                ),
                            },
                        ),
                        buffers: old(gl).model().buffers.insert(t.spec_vbo_id(), vertices@),
                        vaos: old(gl).model().vaos.insert(
                            t.spec_vao_id(),
                            VaoModel {
                                attribs: apply_layout(
                                    Map::empty(),
                                    vertex_attribs(),
                                    t.spec_vbo_id(),
                                    VERTEX_STRIDE,
                                ),
                                element: 0,
                            },
                        ),
                        bound_array: 0,
                        bound_vao: 0,
                        ..old(gl).model()
                    }));
                },
                _ => {
                    assert(false);
                },
            }
        }
        Ok(t)
    }

    /// Draws the triangle: makes the program current, binds the vertex
    /// array, and issues the draw of the three vertices.  Program and
    /// vertex array stay bound, as rendering loops expect.
    pub fn render<G: GlApi>(&self, gl: &mut G)
        requires
            self.spec_wf(old(gl).model()),
        ensures
            final(gl).model() == (GlModel {
                used_program: self.spec_program_id(),
                bound_vao: self.spec_vao_id(),
                ..old(gl).model()
            }),
    {
        self.program.set_used(gl);
        self.vao.bind(gl);
        gl.draw_arrays(DrawMode::Triangles, 0, 3);
    }
}

impl Reloadable for Triangle {
    closed spec fn watched(&self) -> Seq<Seq<char>> {
        self.program.spec_paths()
    }

    closed spec fn wf(&self, m: GlModel) -> bool {
        self.spec_wf(m)
    }

    closed spec fn owned_program_id(&self) -> u32 {
        self.program.spec_id()
    }

    proof fn wf_owned(&self, m: GlModel) {
    }

    proof fn wf_frame(&self, m1: GlModel, m2: GlModel) {
    }

    fn get_paths(&self) -> (p: &Vec<String>) {
        self.program.watched_paths()
    }

    /// Rebuilds the program from the `shaders/triangle` resource pair.
    /// On success the fresh program replaces the old one, whose id is
    /// released; buffer and vertex array are untouched.  On failure the
    /// triangle and the device are exactly as before.
    fn reload<G: GlApi, F: FileStore>(
        &mut self,
        gl: &mut G,
        res: &Resources,
        files: &mut F,
    ) -> (r: Result<(), Error>)
        ensures
            (match r {
                Err(e) => build_err_fact(*final(files), *res, "shaders/triangle"@, e),
                Ok(_) => true,
            }),
            r is Ok ==> {
                &&& final(self).watched() == seq![
                    res.resource_path("shaders/triangle"@ + ".vert"@),
                    res.resource_path("shaders/triangle"@ + ".frag"@),
                ]
                &&& final(self).spec_vbo_id() == old(self).spec_vbo_id()
                &&& final(self).spec_vao_id() == old(self).spec_vao_id()
                &&& match (
                    final(files).file(res.resource_path("shaders/triangle"@ + ".vert"@)),
                    final(files).file(res.resource_path("shaders/triangle"@ + ".frag"@)),
                ) {
                    (Ok(vs), Ok(fs)) => {
                        &&& !has_nil(vs)
                        &&& !has_nil(fs)
                        &&& final(gl).model() == (GlModel {
                            programs: old(gl).model().programs.remove(
                                old(self).spec_program_id(),
                            ).insert(
                                final(self).spec_program_id(),
                                ProgramModel {
                                    attached: Seq::empty(),
                                    linked: Some(
                                        seq![
                                            ShaderModel {
                                                kind: ShaderKind::Vertex,
                                                source: vs,
                                                compiled: true,
                                            },
                                            ShaderModel {
                                                kind: ShaderKind::Fragment,
                                                source: fs,
                                                compiled: true,
                                            },
                                        ],
                                    ),
                                },
                            ),
                            ..old(gl).model()
                        })
                    },
                    _ => false,
                }
            },
    {
        let name = String::from_str("shaders/triangle");
        match Program::from_resource_name(gl, res, files, &name) {
            Ok(program) => {
                let mut displaced = program;
                core::mem::swap(&mut self.program, &mut displaced);
                displaced.release(gl);
                proof {
                    match (
                        files.file(res.resource_path("shaders/triangle"@ + ".vert"@)),
                        files.file(res.resource_path("shaders/triangle"@ + ".frag"@)),
                    ) {
                        (Ok(vs), Ok(fs)) => {
                            assert(gl.model() =~~= (GlModel {
                                programs: old(gl).model().programs.remove(
                                    old(self).spec_program_id(),
                                ).insert(
                                    self.spec_program_id(),
                                    ProgramModel {
                                        attached: Seq::empty(),
                                        linked: Some(
                                            seq![
                                                ShaderModel {
                                                    kind: ShaderKind::Vertex,
                                                    source: vs,
                                                    compiled: true,
                                                },
                                                ShaderModel {
                                                    kind: ShaderKind::Fragment,
                                                    source: fs,
                                                    compiled: true,
                                                },
                                            ],
                                        ),
                                    },
                                ),
                                ..old(gl).model()
                            }));
                        },
                        _ => {
                            assert(false);
                        },
                    }
                }
                Ok(())
            },
            Err(e) => Err(e),
        }
    }
}

} // verus!
