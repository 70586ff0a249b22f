//! An in-memory capture device.
//!
//! `CaptureGl` implements the device contract entirely in memory: it
//! records every object and binding the wrappers create, so what a host
//! would hand to a real driver can be read back and checked.  Whether a
//! compile or link "succeeds" is steered by two switches, standing in
//! for the driver's own judgement, which the contract leaves open.

use vstd::prelude::*;
use std::collections::HashMap;
use crate::render_gl::api::AttribBinding;
use crate::render_gl::api::BufferTarget;
use crate::render_gl::api::DrawMode;
use crate::render_gl::api::GlApi;
use crate::render_gl::api::GlModel;
use crate::render_gl::api::ProgramModel;
use crate::render_gl::api::ShaderKind;
use crate::render_gl::api::ShaderModel;
use crate::render_gl::api::VaoModel;
use crate::render_gl::data::VertexAttrib;

verus! {

broadcast use vstd::std_specs::hash::group_hash_axioms;

/// One recorded shader object.
struct CapturedShader {
    kind: ShaderKind,
    source: Vec<u8>,
    compiled: bool,
}

/// The model of one recorded shader.
spec fn shader_view(c: CapturedShader) -> ShaderModel {
    ShaderModel { kind: c.kind, source: c.source@, compiled: c.compiled }
}

/// One recorded program object.
struct CapturedProgram {
    attached: Vec<u32>,
    linked: Option<Vec<CapturedShader>>,
}

/// The model of one recorded program.
spec fn program_view(c: CapturedProgram) -> ProgramModel {
    ProgramModel {
        attached: c.attached@,
        linked: match c.linked {
            Some(snapshot) => Some(snapshot@.map_values(|s: CapturedShader| shader_view(s))),
            None => None,
        },
    }
}

/// One recorded attribute pointer.
struct CapturedAttrib {
    buffer: u32,
    attrib: VertexAttrib,
    stride: usize,
}

/// The model of one recorded attribute pointer.
spec fn attrib_view(c: CapturedAttrib) -> AttribBinding {
    AttribBinding { buffer: c.buffer, attrib: c.attrib, stride: c.stride }
}

/// One recorded vertex array.
struct CapturedVao {
    attribs: HashMap<u32, CapturedAttrib>,
    element: u32,
}

/// The model of one recorded vertex array.
spec fn vao_view(c: CapturedVao) -> VaoModel {
    VaoModel {
        attribs: c.attribs@.map_values(|a: CapturedAttrib| attrib_view(a)),
        element: c.element,
    }
}

/// The in-memory device.  Object ids are handed out from a counter; a
/// creation yields `None` only if the counter is exhausted or its id is
/// somehow taken, which stands for losing the driver.
pub struct CaptureGl {
    shaders: HashMap<u32, CapturedShader>,
    programs: HashMap<u32, CapturedProgram>,
    buffers: HashMap<u32, Vec<u8>>,
    vaos: HashMap<u32, CapturedVao>,
    next_id: u32,
    bound_array: u32,
    bound_element: u32,
    bound_vao: u32,
    used_program: u32,
    /// When set, every compile reports failure, standing in for a driver
    /// that rejects the source.
    pub reject_compile: bool,
    /// When set, every link reports failure, standing in for a driver
    /// that rejects the link.
    pub reject_link: bool,
}

impl CaptureGl {
    /// A fresh device: no objects, nothing bound.
    pub fn new() -> (r: CaptureGl)
        ensures
            r.model() == (GlModel {
                shaders: Map::empty(),
                programs: Map::empty(),
                buffers: Map::empty(),
                vaos: Map::empty(),
                bound_array: 0,
                bound_element: 0,
                bound_vao: 0,
                used_program: 0,
            }),
    {
        let r = CaptureGl {
            shaders: HashMap::new(),
            programs: HashMap::new(),
            buffers: HashMap::new(),
            vaos: HashMap::new(),
            next_id: 1,
            bound_array: 0,
            bound_element: 0,
            bound_vao: 0,
            used_program: 0,
            reject_compile: false,
            reject_link: false,
        };
        proof {
            assert(r.model().shaders =~= Map::<u32, ShaderModel>::empty());
            assert(r.model().programs =~= Map::<u32, ProgramModel>::empty());
            assert(r.model().buffers =~= Map::<u32, Seq<u8>>::empty());
            assert(r.model().vaos =~= Map::<u32, VaoModel>::empty());
        }
        r
    }

    /// The number of live shader objects.
    pub fn shader_count(&self) -> (n: usize)
        ensures
            n == self.model().shaders.dom().len(),
    {
        proof {
            assert(self.model().shaders.dom() =~= self.shaders@.dom());
        }
        self.shaders.len()
    }

    /// The number of live program objects.
    pub fn program_count(&self) -> (n: usize)
        ensures
            n == self.model().programs.dom().len(),
    {
        proof {
            assert(self.model().programs.dom() =~= self.programs@.dom());
        }
        self.programs.len()
    }

    /// The number of live buffer objects.
    pub fn buffer_count(&self) -> (n: usize)
        ensures
            n == self.model().buffers.dom().len(),
    {
        proof {
            assert(self.model().buffers.dom() =~= self.buffers@.dom());
        }
        self.buffers.len()
    }

    /// The number of live vertex arrays.
    pub fn vao_count(&self) -> (n: usize)
        ensures
            n == self.model().vaos.dom().len(),
    {
        proof {
            assert(self.model().vaos.dom() =~= self.vaos@.dom());
        }
        self.vaos.len()
    }

    /// Reads back the recorded contents of a buffer.
    pub fn buffer_contents(&self, id: u32) -> (r: Option<Vec<u8>>)
        ensures
            match r {
                Some(data) => self.model().buffers.contains_key(id) && data@ == self.model(
                ).buffers[id],
                None => !self.model().buffers.contains_key(id),
            },
    {
        match self.buffers.get(&id) {
            Some(data) => {
                let copy = data.clone();
                proof {
                    assert(copy@ =~= self.buffers@[id]@);
                }
                Some(copy)
            },
            None => None,
        }
    }

    /// Whether a program id is live and fully linked.
    pub fn program_is_linked(&self, id: u32) -> (r: bool)
        ensures
            r == self.model().usable_program(id),
    {
        match self.programs.get(&id) {
            Some(p) => match &p.linked {
                Some(_) => true,
                None => false,
            },
            None => false,
        }
    }

    /// Reads back the source bytes of the shaders a program's last
    /// successful link took, in attachment order.
    pub fn linked_sources(&self, id: u32) -> (r: Option<Vec<Vec<u8>>>)
        ensures
            match r {
                Some(sources) => {
                    &&& self.model().programs.contains_key(id)
                    &&& match self.model().programs[id].linked {
                        Some(models) => sources@.len() == models.len() && (forall|k: int|
                            0 <= k < models.len() ==> (#[trigger] sources@[k])@
                                == models[k].source),
                        None => false,
                    }
                },
                None => !self.model().usable_program(id),
            },
    {
        match self.programs.get(&id) {
            Some(p) => match &p.linked {
                Some(snapshot) => {
                    let ghost shots = snapshot@;
                    let mut sources: Vec<Vec<u8>> = Vec::new();
                    let mut i: usize = 0;
                    while i < snapshot.len()
                        invariant
                            0 <= i <= shots.len(),
                            snapshot@ == shots,
                            sources@.len() == i,
                            forall|k: int|
                                0 <= k < i ==> (#[trigger] sources@[k])@ == shader_view(
                                    shots[k],
                                ).source,
                        decreases shots.len() - i,
                    {
                        let copy = snapshot[i].source.clone();
                        proof {
                            assert(copy@ =~= shots[i as int].source@);
                        }
                        sources.push(copy);
                        i = i + 1;
                    }
                    Some(sources)
                },
                None => None,
            },
            None => None,
        }
    }

    /// Hands out the next object id, if any is left.
    fn take_id(&mut self) -> (r: Option<u32>)
        ensures
            match r {
                Some(id) => {
                    &&& id != 0
                    &&& *final(self) == (CaptureGl { next_id: final(self).next_id, ..*old(self) })
                },
                None => *final(self) == *old(self),
            },
    {
        let id = self.next_id;
        if id == u32::MAX || id == 0 {
            return None;
        }
        self.next_id = id + 1;
        Some(id)
    }
}

/// The models of recorded shaders, in order.
spec fn views_of(s: Seq<CapturedShader>) -> Seq<ShaderModel> {
    Seq::new(s.len(), |k: int| shader_view(s[k]))
}

/// The models the given shader table holds for a sequence of ids.
spec fn models_for(attached: Seq<u32>, shaders: Map<u32, ShaderModel>) -> Seq<ShaderModel> {
    Seq::new(attached.len(), |k: int| shaders[attached[k]])
}

/// A field-for-field copy of a recorded shader.
fn copy_shader(c: &CapturedShader) -> (r: CapturedShader)
    ensures
        shader_view(r) == shader_view(*c),
{
    let r = CapturedShader { kind: c.kind, source: c.source.clone(), compiled: c.compiled };
    proof {
        assert(r.source@ =~= c.source@);
    }
    r
}

impl GlApi for CaptureGl {
    closed spec fn model(&self) -> GlModel {
        GlModel {
            shaders: self.shaders@.map_values(|c: CapturedShader| shader_view(c)),
            programs: self.programs@.map_values(|c: CapturedProgram| program_view(c)),
            buffers: self.buffers@.map_values(|b: Vec<u8>| b@),
            vaos: self.vaos@.map_values(|c: CapturedVao| vao_view(c)),
            bound_array: self.bound_array,
            bound_element: self.bound_element,
            bound_vao: self.bound_vao,
            used_program: self.used_program,
        }
    }

    fn create_shader(&mut self, kind: ShaderKind) -> (r: Option<u32>) {
        let id = match self.take_id() {
            Some(id) => id,
            None => {
                return None;
            },
        };
        if self.shaders.contains_key(&id) {
            return None;
        }
        self.shaders.insert(id, CapturedShader { kind, source: Vec::new(), compiled: false });
        proof {
            assert(self.model().shaders =~= old(self).model().shaders.insert(
                id,
                ShaderModel { kind, source: Seq::empty(), compiled: false },
            ));
            assert(self.model() =~= old(self).model().with_shader(
                id,
                ShaderModel { kind, source: Seq::empty(), compiled: false },
            ));
        }
        Some(id)
    }

    fn shader_source(&mut self, id: u32, source: &Vec<u8>) {
        match self.shaders.remove(&id) {
            Some(c) => {
                self.shaders.insert(
                    id,
                    CapturedShader { kind: c.kind, source: source.clone(), compiled: c.compiled },
                );
                proof {
                    assert(self.model() =~= old(self).model().with_shader(
                        id,
                        ShaderModel { source: source@, ..old(self).model().shaders[id] },
                    ));
                }
            },
            None => {
                proof {
                    assert(false);
                }
            },
        }
    }

    fn compile_shader(&mut self, id: u32) -> (ok: bool) {
        let ok = !self.reject_compile;
        match self.shaders.remove(&id) {
            Some(c) => {
                self.shaders.insert(
                    id,
                    CapturedShader { kind: c.kind, source: c.source, compiled: ok },
                );
                proof {
                    assert(self.model() =~= old(self).model().with_shader(
                        id,
                        ShaderModel { compiled: ok, ..old(self).model().shaders[id] },
                    ));
                }
                ok
            },
            None => {
                proof {
                    assert(false);
                }
                false
            },
        }
    }

    fn shader_info_log(&self, id: u32) -> (log: String) {
        String::new()
    }

    fn delete_shader(&mut self, id: u32) {
        self.shaders.remove(&id);
        proof {
            assert(self.model().shaders =~= old(self).model().shaders.remove(id));
            assert(self.model() =~= (GlModel {
                shaders: old(self).model().shaders.remove(id),
                ..old(self).model()
            }));
        }
    }

    fn create_program(&mut self) -> (r: Option<u32>) {
        let id = match self.take_id() {
            Some(id) => id,
            None => {
                return None;
            },
        };
        if self.programs.contains_key(&id) {
            return None;
        }
        self.programs.insert(id, CapturedProgram { attached: Vec::new(), linked: None });
        proof {
            assert(self.model() =~= old(self).model().with_program(
                id,
                ProgramModel { attached: Seq::empty(), linked: None },
            ));
        }
        Some(id)
    }

    fn attach_shader(&mut self, program: u32, shader: u32) {
        match self.programs.remove(&program) {
            Some(mut c) => {
                c.attached.push(shader);
                self.programs.insert(program, c);
                proof {
                    assert(self.model() =~= old(self).model().with_program(
                        program,
                        ProgramModel {
                            attached: old(self).model().programs[program].attached.push(shader),
                            ..old(self).model().programs[program]
                        },
                    ));
                }
            },
            None => {
                proof {
                    assert(false);
                }
            },
        }
    }

    fn link_program(&mut self, program: u32) -> (ok: bool) {
        let ok = !self.reject_link;
        match self.programs.remove(&program) {
            Some(mut c) => {
                let ghost mid = *self;
                let ghost attached = c.attached@;
                if ok {
                    let mut snapshot: Vec<CapturedShader> = Vec::new();
                    let mut i: usize = 0;
                    proof {
                        assert(views_of(snapshot@) =~= models_for(
                            attached.take(0),
                            old(self).model().shaders,
                        ));
                    }
                    while i < c.attached.len()
                        invariant
                            0 <= i <= c.attached@.len(),
                            *self == mid,
                            mid == (CaptureGl { programs: mid.programs, ..*old(self) }),
                            mid.programs@ == old(self).programs@.remove(program),
                            old(self).programs@.contains_key(program),
                            c.attached@ == attached,
                            attached == old(self).model().programs[program].attached,
                            forall|k: int|
                                0 <= k < attached.len() ==> old(
                                    self,
                                ).model().shaders.contains_key(#[trigger] attached[k]),
                            views_of(snapshot@) == models_for(
                                attached.take(i as int),
                                old(self).model().shaders,
                            ),
                        decreases c.attached@.len() - i,
                    {
                        let sid = c.attached[i];
                        proof {
                            assert(sid == attached[i as int]);
                            assert(old(self).model().shaders.contains_key(attached[i as int]));
                            assert(old(self).shaders@.contains_key(sid));
                        }
                        match self.shaders.get(&sid) {
                            Some(sc) => {
                                let ghost snap0 = snapshot@;
                                proof {
                                    assert(self.shaders@ == old(self).shaders@);
                                    assert(self.shaders@[sid] == *sc);
                                }
                                let copied = copy_shader(sc);
                                let ghost pushed = copied;
                                snapshot.push(copied);
                                proof {
                                    assert(snapshot@ == snap0.push(pushed));
                                    assert(old(self).model().shaders[sid] == shader_view(
                                        old(self).shaders@[sid],
                                    ));
                                    assert(shader_view(snapshot@.last()) == old(
                                        self,
                                    ).model().shaders[sid]);
                                    assert(views_of(snap0).len() == snap0.len());
                                    assert(models_for(
                                        attached.take(i as int),
                                        old(self).model().shaders,
                                    ).len() == i);
                                    assert(snap0.len() == i);
                                    assert forall|k: int| 0 <= k < i + 1 implies views_of(
                                        snapshot@,
                                    )[k] == models_for(
                                        attached.take(i as int + 1),
                                        old(self).model().shaders,
                                    )[k] by {
                                        assert(attached.take(i as int + 1)[k] == attached[k]);
                                        if k < i {
                                            assert(snap0.push(pushed)[k] == snap0[k]);
                                            assert(snapshot@[k] == snap0[k]);
                                            assert(views_of(snap0)[k] == models_for(
                                                attached.take(i as int),
                                                old(self).model().shaders,
                                            )[k]);
                                            assert(attached.take(i as int)[k] == attached[k]);
                                        } else {
                                            assert(snap0.push(pushed)[k] == pushed);
                                            assert(snapshot@[k] == pushed);
                                            assert(snapshot@.last() == pushed);
                                        }
                                    }
                                    assert(views_of(snapshot@) =~= models_for(
                                        attached.take(i as int + 1),
                                        old(self).model().shaders,
                                    ));
                                }
                            },
                            None => {
                                proof {
                                    assert(false);
                                }
                            },
                        }
                        i = i + 1;
                    }
                    proof {
                        assert(attached.take(attached.len() as int) =~= attached);
                        assert(views_of(snapshot@) == models_for(
                            attached,
                            old(self).model().shaders,
                        ));
                        assert(snapshot@.map_values(|s: CapturedShader| shader_view(s))
                            =~= views_of(snapshot@));
                        assert(models_for(attached, old(self).model().shaders) =~= attached.map(
                            |k: int, sid: u32| old(self).model().shaders[sid],
                        ));
                    }
                    c.linked = Some(snapshot);
                } else {
                    c.linked = None;
                }
                self.programs.insert(program, c);
                proof {
                    assert(self.model() =~= old(self).model().with_program(
                        program,
                        ProgramModel {
                            attached: old(self).model().programs[program].attached,
                            linked: if ok {
                                Some(
                                    old(self).model().programs[program].attached.map(
                                        |i: int, sid: u32| old(self).model().shaders[sid],
                                    ),
                                )
                            } else {
                                None
                            },
                        },
                    ));
                }
                ok
            },
            None => {
                proof {
                    assert(false);
                }
                false
            },
        }
    }

    fn program_info_log(&self, id: u32) -> (log: String) {
        String::new()
    }

    fn detach_shader(&mut self, program: u32, shader: u32) {
        match self.programs.remove(&program) {
            Some(mut c) => {
                let ghost mid = *self;
                let ghost c0 = c;
                let ghost attached0 = c.attached@;
                let mut kept: Vec<u32> = Vec::new();
                let mut removed = false;
                let mut i: usize = 0;
                proof {
                    assert(kept@ =~= attached0.take(0));
                    assert(!attached0.take(0).contains(shader));
                }
                while i < c.attached.len()
                    invariant
                        0 <= i <= c.attached@.len(),
                        *self == mid,
                        c == c0,
                        mid == (CaptureGl { programs: mid.programs, ..*old(self) }),
                        mid.programs@ == old(self).programs@.remove(program),
                        old(self).programs@.contains_key(program),
                        old(self).programs@[program] == c0,
                        removed ==> kept@ == attached0.take(i as int).remove_value(shader),
                        removed ==> attached0.take(i as int).contains(shader),
                        !removed ==> kept@ == attached0.take(i as int) && !attached0.take(
                            i as int,
                        ).contains(shader),
                        c.attached@ == attached0,
                    decreases c.attached@.len() - i,
                {
                    let sid = c.attached[i];
                    proof {
                        assert(attached0.take(i as int + 1) =~= attached0.take(i as int).push(sid));
                    }
                    if !removed && sid == shader {
                        removed = true;
                        proof {
                            attached0.take(i as int + 1).index_of_first_ensures(shader);
                            lemma_first_occurrence_remove(attached0.take(i as int + 1), shader, i as int);
                            assert(kept@ =~= attached0.take(i as int + 1).remove_value(shader));
                        }
                    } else {
                        kept.push(sid);
                        proof {
                            if removed {
                                lemma_remove_value_push(attached0.take(i as int), shader, sid);
                                assert(kept@ =~= attached0.take(i as int + 1).remove_value(shader));
                            } else {
                                assert(!attached0.take(i as int + 1).contains(shader)) by {
                                    assert(forall|k: int|
                                        0 <= k < i + 1 ==> #[trigger] attached0.take(
                                            i as int + 1,
                                        )[k] != shader);
                                }
                            }
                        }
                    }
                    i = i + 1;
                }
                proof {
                    assert(attached0.take(attached0.len() as int) =~= attached0);
                }
                c.attached = kept;
                self.programs.insert(program, c);
                proof {
                    assert(self.model() =~= old(self).model().with_program(
                        program,
                        ProgramModel {
                            attached: old(self).model().programs[program].attached.remove_value(
                                shader,
                            ),
                            ..old(self).model().programs[program]
                        },
                    ));
                }
            },
            None => {
                proof {
                    assert(false);
                }
            },
        }
    }

    fn delete_program(&mut self, id: u32) {
        self.programs.remove(&id);
        proof {
            assert(self.model() =~= (GlModel {
                programs: old(self).model().programs.remove(id),
                ..old(self).model()
            }));
        }
    }

    fn use_program(&mut self, id: u32) {
        self.used_program = id;
        proof {
            assert(self.model() =~= (GlModel { used_program: id, ..old(self).model() }));
        }
    }

    fn gen_buffer(&mut self) -> (r: Option<u32>) {
        let id = match self.take_id() {
            Some(id) => id,
            None => {
                return None;
            },
        };
        if self.buffers.contains_key(&id) {
            return None;
        }
        self.buffers.insert(id, Vec::new());
        proof {
            assert(self.model() =~= (GlModel {
                buffers: old(self).model().buffers.insert(id, Seq::empty()),
                ..old(self).model()
            }));
        }
        Some(id)
    }

    fn bind_buffer(&mut self, target: BufferTarget, id: u32) {
        match target {
            BufferTarget::Array => {
                self.bound_array = id;
                proof {
                    assert(self.model() =~= old(self).model().with_binding(target, id));
                }
            },
            BufferTarget::ElementArray => {
                if self.bound_vao != 0 {
                    let vao = self.bound_vao;
                    match self.vaos.remove(&vao) {
                        Some(mut c) => {
                            c.element = id;
                            self.vaos.insert(vao, c);
                            proof {
                                assert(self.model() =~= old(self).model().with_binding(target, id));
                            }
                        },
                        None => {
                            proof {
                                assert(false);
                            }
                        },
                    }
                } else {
                    self.bound_element = id;
                    proof {
                        assert(self.model() =~= old(self).model().with_binding(target, id));
                    }
                }
            },
        }
    }

    fn buffer_data(&mut self, target: BufferTarget, data: &Vec<u8>) {
        let b = match target {
            BufferTarget::Array => self.bound_array,
            BufferTarget::ElementArray => {
                if self.bound_vao != 0 {
                    match self.vaos.get(&self.bound_vao) {
                        Some(c) => c.element,
                        None => {
                            proof {
                                assert(false);
                            }
                            0
                        },
                    }
                } else {
                    self.bound_element
                }
            },
        };
        let copy = data.clone();
        proof {
            assert(copy@ =~= data@);
        }
        self.buffers.insert(b, copy);
        proof {
            assert(self.model() =~= (GlModel {
                buffers: old(self).model().buffers.insert(old(self).model().bound(target), data@),
                ..old(self).model()
            }));
        }
    }

    fn delete_buffer(&mut self, id: u32) {
        self.buffers.remove(&id);
        if self.bound_array == id {
            self.bound_array = 0;
        }
        if self.bound_element == id {
            self.bound_element = 0;
        }
        proof {
            assert(self.model() =~= (GlModel {
                buffers: old(self).model().buffers.remove(id),
                bound_array: if old(self).model().bound_array == id {
                    0
                } else {
                    old(self).model().bound_array
                },
                bound_element: if old(self).model().bound_element == id {
                    0
                } else {
                    old(self).model().bound_element
                },
                ..old(self).model()
            }));
        }
    }

    fn gen_vertex_array(&mut self) -> (r: Option<u32>) {
        let id = match self.take_id() {
            Some(id) => id,
            None => {
                return None;
            },
        };
        if self.vaos.contains_key(&id) {
            return None;
        }
        let fresh = CapturedVao { attribs: HashMap::new(), element: 0 };
        proof {
            assert(vao_view(fresh).attribs =~= Map::<u32, AttribBinding>::empty());
        }
        self.vaos.insert(id, fresh);
        proof {
            assert(self.model() =~= (GlModel {
                vaos: old(self).model().vaos.insert(
                    id,
                    VaoModel { attribs: Map::empty(), element: 0 },
                ),
                ..old(self).model()
            }));
        }
        Some(id)
    }

    fn bind_vertex_array(&mut self, id: u32) {
        self.bound_vao = id;
        proof {
            assert(self.model() =~= (GlModel { bound_vao: id, ..old(self).model() }));
        }
    }

    fn vertex_attrib_pointer(&mut self, attrib: &VertexAttrib, stride: usize) {
        let vao = self.bound_vao;
        match self.vaos.remove(&vao) {
            Some(mut c) => {
                c.attribs.insert(
                    attrib.location,
                    CapturedAttrib { buffer: self.bound_array, attrib: *attrib, stride },
                );
                self.vaos.insert(vao, c);
                proof {
                    assert(self.model() =~~= old(self).model().with_attrib(
                        attrib.location,
                        *attrib,
                        stride,
                    ));
                }
            },
            None => {
                proof {
                    assert(false);
                }
            },
        }
    }

    fn delete_vertex_array(&mut self, id: u32) {
        self.vaos.remove(&id);
        if self.bound_vao == id {
            self.bound_vao = 0;
        }
        proof {
            assert(self.model() =~= (GlModel {
                vaos: old(self).model().vaos.remove(id),
                bound_vao: if old(self).model().bound_vao == id {
                    0
                } else {
                    old(self).model().bound_vao
                },
                ..old(self).model()
            }));
        }
    }

    fn draw_arrays(&mut self, mode: DrawMode, first: u32, count: u32) {
    }

    fn draw_elements(&mut self, mode: DrawMode, count: u32) {
    }
}

/// Removing the first occurrence of a value that sits at the end of a
/// sequence free of it elsewhere drops exactly that last element.
proof fn lemma_first_occurrence_remove(s: Seq<u32>, v: u32, i: int)
    requires
        s.len() == i + 1,
        0 <= i,
        s[i] == v,
        forall|k: int| 0 <= k < i ==> s[k] != v,
    ensures
        s.remove_value(v) == s.take(i),
{
    s.index_of_first_ensures(v);
    assert(s.contains(v));
    assert(s.index_of_first(v) == Some(i));
    assert(s.remove(i) =~= s.take(i));
}

/// Pushing another value after removing one keeps the removal's effect.
proof fn lemma_remove_value_push(s: Seq<u32>, v: u32, x: u32)
    requires
        s.contains(v),
    ensures
        s.push(x).remove_value(v) == s.remove_value(v).push(x),
{
    s.index_of_first_ensures(v);
    let t = s.push(x);
    match s.index_of_first(v) {
        Some(i) => {
            assert(t[i] == v);
            assert(t.contains(v));
            t.index_of_first_ensures(v);
            match t.index_of_first(v) {
                Some(j) => {
                    assert(j == i) by {
                        if j < i {
                            assert(t[j] == s[j]);
                        }
                        if j > i {
                            assert(t[i] == v);
                        }
                    }
                    assert(t.remove(j) =~= s.remove(i).push(x));
                },
                None => {
                    assert(false);
                },
            }
        },
        None => {
            assert(false);
        },
    }
}

} // verus!
