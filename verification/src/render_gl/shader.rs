//! Shader and program owners.
//!
//! A `Shader` owns one compiled shader-stage id; a `Program` owns one
//! linked program id and records the source file paths it depends on.
//! Construction either yields a fully usable object or releases every id
//! it allocated and returns a structured error; the contracts show the
//! device model restored exactly on every failure path.

use vstd::prelude::*;
use vstd::string::StrSliceExecFns;
use vstd::string::StringExecFns;
use vstd::seq_lib::*;
use crate::render_gl::api::GlApi;
use crate::render_gl::api::GlModel;
use crate::render_gl::api::ProgramModel;
use crate::render_gl::api::ShaderKind;
use crate::render_gl::api::ShaderModel;
use crate::resources::file_ok_nil_free;
use crate::resources::has_nil;
use crate::resources::load_err_fact;
use crate::resources::FileStore;
use crate::resources::Resources;

verus! {

/// A failure while building a shader or program from named resources.
#[derive(Debug, PartialEq, Eq)]
pub enum Error {
    /// The named resource could not be loaded; `inner` says why.
    ResourceLoad { name: String, inner: crate::resources::Error },
    /// The resource name carries no recognized stage suffix.
    CannotDetermineShaderKind { name: String },
    /// The driver rejected the stage's source; `message` is its
    /// diagnostic log, passed through unmodified.
    CompileError { name: String, message: String },
    /// The driver rejected the link; `message` is its diagnostic log,
    /// passed through unmodified.
    LinkError { name: String, message: String },
    /// The driver could not allocate an object id: unrecoverable loss of
    /// the driver or its context.
    ContextLost,
}

/// Whether `s` ends with `suffix`.
pub open spec fn spec_ends_with(s: Seq<char>, suffix: Seq<char>) -> bool {
    suffix.len() <= s.len() && s.skip(s.len() - suffix.len()) == suffix
}

/// Returns whether `s` ends with `suffix`.
fn ends_with_suffix(s: &String, suffix: &str) -> (r: bool)
    ensures
        r == spec_ends_with(s@, suffix@),
{
    let n = s.as_str().unicode_len();
    let m = suffix.unicode_len();
    if m > n {
        return false;
    }
    let mut j: usize = 0;
    while j < m
        invariant
            0 <= j <= m,
            m <= n,
            n == s@.len(),
            m == suffix@.len(),
            forall|k: int| 0 <= k < j ==> s@[n - m + k] == suffix@[k],
        decreases m - j,
    {
        if s.as_str().get_char(n - m + j) != suffix.get_char(j) {
            proof {
                assert(s@.skip(n as int - m as int)[j as int] == s@[n - m + j]);
            }
            return false;
        }
        j = j + 1;
    }
    proof {
        assert(s@.skip(n as int - m as int) =~= suffix@);
    }
    true
}

/// The stage a resource name's suffix selects, if any is recognized.
pub open spec fn suffix_kind(name: Seq<char>) -> Option<ShaderKind> {
    if spec_ends_with(name, ".vert"@) {
        Some(ShaderKind::Vertex)
    } else if spec_ends_with(name, ".frag"@) {
        Some(ShaderKind::Fragment)
    } else {
        None
    }
}

/// Infers the stage of a shader resource from its name's suffix.
pub fn shader_kind_for_name(name: &String) -> (r: Option<ShaderKind>)
    ensures
        r == suffix_kind(name@),
{
    if ends_with_suffix(name, ".vert") {
        Some(ShaderKind::Vertex)
    } else if ends_with_suffix(name, ".frag") {
        Some(ShaderKind::Fragment)
    } else {
        None
    }
}

/// The owner of one compiled shader-stage id.
#[derive(Debug)]
pub struct Shader {
    id: u32,
    kind: ShaderKind,
}

impl Shader {
    /// The owned shader id.
    pub closed spec fn spec_id(self) -> u32 {
        self.id
    }

    /// The stage this shader belongs to, fixed at creation.
    pub closed spec fn spec_kind(self) -> ShaderKind {
        self.kind
    }

    /// Whether the owned id is live, compiled, and of this owner's stage
    /// on the given device model.
    pub open spec fn wf(self, m: GlModel) -> bool {
        &&& self.spec_id() != 0
        &&& m.shaders.contains_key(self.spec_id())
        &&& m.shaders[self.spec_id()].kind == self.spec_kind()
        &&& m.shaders[self.spec_id()].compiled
    }

    /// The owned shader id.
    pub fn id(&self) -> (r: u32)
        ensures
            r == self.spec_id(),
    {
        self.id
    }

    /// Compiles one shader stage from source: allocates an id, uploads
    /// the source, compiles, and queries the status.  On success the new
    /// shader is the only change to the device.  On failure — the driver
    /// rejecting the source, or no id being available — the id is
    /// released again, the device is exactly as before, and the message
    /// is the driver's log (empty when no id was available).
    pub fn from_source<G: GlApi>(gl: &mut G, source: &Vec<u8>, kind: ShaderKind) -> (r: Result<
        Shader,
        String,
    >)
        ensures
            match r {
                Ok(s) => {
                    &&& !old(gl).model().shaders.contains_key(s.spec_id())
                    &&& s.spec_kind() == kind
                    &&& s.wf(final(gl).model())
                    &&& final(gl).model() == old(gl).model().with_shader(
                        s.spec_id(),
                        ShaderModel { kind, source: source@, compiled: true },
                    )
                },
                Err(_) => final(gl).model() == old(gl).model(),
            },
    {
        let id = match gl.create_shader(kind) {
            Some(id) => id,
            None => {
                return Err(String::new());
            },
        };
        gl.shader_source(id, source);
        let ok = gl.compile_shader(id);
        if ok {
            proof {
                assert(final(gl).model() =~= old(gl).model().with_shader(
                    id,
                    ShaderModel { kind, source: source@, compiled: true },
                ));
            }
            Ok(Shader { id, kind })
        } else {
            let log = gl.shader_info_log(id);
            gl.delete_shader(id);
            proof {
                assert(final(gl).model() =~= old(gl).model());
            }
            Err(log)
        }
    }

    /// Loads and compiles one shader stage by resource name: infers the
    /// stage from the name's suffix, loads the named resource, and
    /// compiles it.  Returns the shader with the path the source was read
    /// from.  Every failure leaves the device exactly as before and names
    /// the resource it concerns.
    pub fn from_resource_name<G: GlApi, F: FileStore>(
        gl: &mut G,
        res: &Resources,
        files: &mut F,
        name: &String,
    ) -> (r: Result<(Shader, String), Error>)
        ensures
            match r {
                Ok((s, path)) => {
                    &&& suffix_kind(name@) == Some(s.spec_kind())
                    &&& path@ == res.resource_path(name@)
                    &&& !old(gl).model().shaders.contains_key(s.spec_id())
                    &&& s.wf(final(gl).model())
                    &&& match final(files).file(res.resource_path(name@)) {
                        Ok(bytes) => !has_nil(bytes) && final(gl).model() == old(
                            gl,
                        ).model().with_shader(
                            s.spec_id(),
                            ShaderModel { kind: s.spec_kind(), source: bytes, compiled: true },
                        ),
                        Err(_) => false,
                    }
                },
                Err(e) => {
                    &&& final(gl).model() == old(gl).model()
                    &&& match e {
                        Error::CannotDetermineShaderKind { name: n } => {
                            &&& n@ == name@
                            &&& suffix_kind(name@) is None
                            &&& *final(files) == *old(files)
                        },
                        Error::ResourceLoad { name: n, inner } => {
                            &&& n@ == name@
                            &&& suffix_kind(name@) is Some
                            &&& load_err_fact(*final(files), res.resource_path(name@), inner)
                        },
                        Error::CompileError { name: n, message: _ } => {
                            &&& n@ == name@
                            &&& suffix_kind(name@) is Some
                            &&& match final(files).file(res.resource_path(name@)) {
                                Ok(bytes) => !has_nil(bytes),
                                Err(_) => false,
                            }
                        },
                        _ => false,
                    }
                },
            },
            forall|p: Seq<char>|
                p != res.resource_path(name@) ==> final(files).file(p) == old(files).file(p),
    {
        let kind = match shader_kind_for_name(name) {
            Some(kind) => kind,
            None => {
                return Err(Error::CannotDetermineShaderKind { name: name.clone() });
            },
        };
        let source = match res.load_cstring(files, name) {
            Ok(source) => source,
            Err(inner) => {
                return Err(Error::ResourceLoad { name: name.clone(), inner });
            },
        };
        match Self::from_source(gl, &source.content, kind) {
            Ok(shader) => Ok((shader, source.path)),
            Err(message) => Err(Error::CompileError { name: name.clone(), message }),
        }
    }

    /// Releases the owned shader id.  Consuming the owner, this runs at
    /// most once per created shader.
    pub fn release<G: GlApi>(self, gl: &mut G)
        requires
            old(gl).model().shaders.contains_key(self.spec_id()),
        ensures
            final(gl).model() == (GlModel {
                shaders: old(gl).model().shaders.remove(self.spec_id()),
                ..old(gl).model()
            }),
    {
        gl.delete_shader(self.id);
    }
}

/// The shader ids of a slice of owners, in order.
pub open spec fn ids_of(shaders: Seq<Shader>) -> Seq<u32> {
    shaders.map_values(|s: Shader| s.spec_id())
}

/// Law: a program's linked interface is a function of its stage sources
/// alone.  Two programs whose last link took the same vertex and
/// fragment sources — as programs built by `from_resource_name` over
/// unchanged files do — have the same linked state, and with it the same
/// attribute bindings and uniform set.
pub proof fn lemma_linked_interface_from_sources(
    vs: Seq<u8>,
    fs: Seq<u8>,
    m1: GlModel,
    m2: GlModel,
    p1: u32,
    p2: u32,
)
    requires
        m1.programs.contains_key(p1),
        m2.programs.contains_key(p2),
        m1.programs[p1].linked == Some(
            seq![
                ShaderModel { kind: ShaderKind::Vertex, source: vs, compiled: true },
                ShaderModel { kind: ShaderKind::Fragment, source: fs, compiled: true },
            ],
        ),
        m2.programs[p2].linked == Some(
            seq![
                ShaderModel { kind: ShaderKind::Vertex, source: vs, compiled: true },
                ShaderModel { kind: ShaderKind::Fragment, source: fs, compiled: true },
            ],
        ),
    ensures
        m1.programs[p1].linked == m2.programs[p2].linked,
{
}

/// What a failed program build says of the store: the error names the
/// base name or the stage file it concerns, and the store's recorded
/// answers witness how far the composition got — a load failure carries
/// the store's own answer for its file, while a compile or link
/// rejection means every file consumed up to it was present and free of
/// zero bytes.  A build never reports an unrecognized stage suffix: the
/// derived names carry theirs.
pub open spec fn build_err_fact<F: FileStore>(
    files: F,
    res: Resources,
    name: Seq<char>,
    e: Error,
) -> bool {
    match e {
        Error::ResourceLoad { name: n, inner } => {
            ||| (n@ == name + ".vert"@ && load_err_fact(
                files,
                res.resource_path(name + ".vert"@),
                inner,
            ))
            ||| (n@ == name + ".frag"@ && load_err_fact(
                files,
                res.resource_path(name + ".frag"@),
                inner,
            ) && file_ok_nil_free(files, res.resource_path(name + ".vert"@)))
        },
        Error::CompileError { name: n, message: _ } => {
            ||| (n@ == name + ".vert"@ && file_ok_nil_free(
                files,
                res.resource_path(name + ".vert"@),
            ))
            ||| (n@ == name + ".frag"@ && file_ok_nil_free(
                files,
                res.resource_path(name + ".frag"@),
            ) && file_ok_nil_free(files, res.resource_path(name + ".vert"@)))
        },
        Error::LinkError { name: n, message: _ } => {
            &&& n@ == name
            &&& file_ok_nil_free(files, res.resource_path(name + ".vert"@))
            &&& file_ok_nil_free(files, res.resource_path(name + ".frag"@))
        },
        Error::CannotDetermineShaderKind { name: _ } => false,
        Error::ContextLost => false,
    }
}

/// The two per-stage paths a base name resolves to are distinct: the
/// stage suffixes differ, so the joined paths differ.
proof fn lemma_stage_paths_differ(root: Seq<char>, name: Seq<char>)
    ensures
        root + "/"@ + (name + ".vert"@) != root + "/"@ + (name + ".frag"@),
{
    reveal_strlit("/");
    reveal_strlit(".vert");
    reveal_strlit(".frag");
    let a = root + "/"@ + (name + ".vert"@);
    let b = root + "/"@ + (name + ".frag"@);
    let i = root.len() + 1 + name.len() + 1;
    assert(a[i as int] == 'v');
    assert(b[i as int] == 'f');
}

/// The owner of one linked program id, with the source file paths it was
/// built from.
#[derive(Debug)]
pub struct Program {
    id: u32,
    /// The resolved paths of the source files the program depends on,
    /// exposed so hosts can watch them for changes.
    pub paths: Vec<String>,
}

impl Program {
    /// The owned program id.
    pub closed spec fn spec_id(self) -> u32 {
        self.id
    }

    /// The views of the recorded source file paths, in order.
    pub closed spec fn spec_paths(self) -> Seq<Seq<char>> {
        self.paths@.map_values(|s: String| s@)
    }

    /// Whether the owned id is live and fully linked on the given device
    /// model, hence usable for rendering.
    pub open spec fn wf(self, m: GlModel) -> bool {
        &&& self.spec_id() != 0
        &&& m.usable_program(self.spec_id())
    }

    /// The owned program id.
    pub fn id(&self) -> (r: u32)
        ensures
            r == self.spec_id(),
    {
        self.id
    }

    /// The recorded source file paths, for a host to watch.
    pub fn watched_paths(&self) -> (p: &Vec<String>)
        ensures
            p@.map_values(|s: String| s@) == self.spec_paths(),
    {
        &self.paths
    }

    /// Links a program from compiled shaders: allocates an id, attaches
    /// every shader, links, queries the status, and detaches every shader
    /// whatever the outcome.  On success the program — usable, with
    /// nothing attached, its linked state exactly the given shaders'
    /// models in order — is the only change to the device and carries no
    /// paths yet.  On failure the id is released again, the device is
    /// exactly as before, and the message is the driver's log (empty when
    /// no id was available).  The given shaders are never consumed or
    /// changed.
    pub fn from_shaders<G: GlApi>(gl: &mut G, shaders: &Vec<Shader>) -> (r: Result<Program, String>)
        requires
            forall|i: int| 0 <= i < shaders@.len() ==> (#[trigger] shaders@[i]).wf(old(gl).model()),
            forall|i: int, j: int|
                0 <= i < j < shaders@.len() ==> (#[trigger] shaders@[i]).spec_id() != (
                #[trigger] shaders@[j]).spec_id(),
        ensures
            match r {
                Ok(p) => {
                    &&& !old(gl).model().programs.contains_key(p.spec_id())
                    &&& p.wf(final(gl).model())
                    &&& p.spec_paths().len() == 0
                    &&& final(gl).model() == old(gl).model().with_program(
                        p.spec_id(),
                        ProgramModel {
                            attached: Seq::empty(),
                            linked: Some(
                                shaders@.map_values(
                                    |s: Shader| old(gl).model().shaders[s.spec_id()],
                                ),
                            ),
                        },
                    )
                },
                Err(_) => final(gl).model() == old(gl).model(),
            },
    {
        let ghost m0 = old(gl).model();
        let ghost ids = ids_of(shaders@);
        let id = match gl.create_program() {
            Some(id) => id,
            None => {
                return Err(String::new());
            },
        };
        let mut i: usize = 0;
        proof {
            assert(ids.take(0) =~= Seq::<u32>::empty());
        }
        while i < shaders.len()
            invariant
                0 <= i <= shaders@.len(),
                ids == ids_of(shaders@),
                forall|k: int| 0 <= k < shaders@.len() ==> (#[trigger] shaders@[k]).wf(m0),
                forall|k: int, j: int|
                    0 <= k < j < shaders@.len() ==> (#[trigger] shaders@[k]).spec_id() != (
                    #[trigger] shaders@[j]).spec_id(),
                id != 0,
                !m0.programs.contains_key(id),
                gl.model() == m0.with_program(
                    id,
                    ProgramModel { attached: ids.take(i as int), linked: None },
                ),
            decreases shaders@.len() - i,
        {
            let sid = shaders[i].id();
            proof {
                assert forall|k: int| 0 <= k < i implies ids.take(i as int)[k] != sid by {
                    assert(ids.take(i as int)[k] == shaders@[k].spec_id());
                }
                assert(!ids.take(i as int).contains(sid));
            }
            gl.attach_shader(id, sid);
            proof {
                assert(ids.take(i as int + 1) =~= ids.take(i as int).push(sid));
                assert(gl.model() =~= m0.with_program(
                    id,
                    ProgramModel { attached: ids.take(i as int + 1), linked: None },
                ));
            }
            i = i + 1;
        }
        proof {
            assert(ids.take(shaders@.len() as int) =~= ids);
        }
        let ok = gl.link_program(id);
        let ghost snapshot = if ok {
            Some(ids.map(|k: int, sid: u32| m0.shaders[sid]))
        } else {
            None::<Seq<ShaderModel>>
        };
        proof {
            assert(gl.model() =~= m0.with_program(
                id,
                ProgramModel { attached: ids, linked: snapshot },
            ));
        }
        let mut i: usize = 0;
        while i < shaders.len()
            invariant
                0 <= i <= shaders@.len(),
                ids == ids_of(shaders@),
                id != 0,
                !m0.programs.contains_key(id),
                gl.model() == m0.with_program(
                    id,
                    ProgramModel { attached: ids.skip(i as int), linked: snapshot },
                ),
            decreases shaders@.len() - i,
        {
            let sid = shaders[i].id();
            proof {
                assert(ids.skip(i as int)[0] == sid);
                assert(ids.skip(i as int).contains(sid));
                ids.skip(i as int).index_of_first_ensures(sid);
                assert(ids.skip(i as int).index_of_first(sid) == Some(0int));
                assert(ids.skip(i as int).remove_value(sid) == ids.skip(i as int).remove(0));
                assert(ids.skip(i as int).remove(0) =~= ids.skip(i as int + 1));
            }
            gl.detach_shader(id, sid);
            proof {
                assert(gl.model() =~= m0.with_program(
                    id,
                    ProgramModel { attached: ids.skip(i as int + 1), linked: snapshot },
                ));
            }
            i = i + 1;
        }
        proof {
            assert(ids.skip(shaders@.len() as int) =~= Seq::<u32>::empty());
        }
        if ok {
            proof {
                assert(ids.map(|k: int, sid: u32| m0.shaders[sid]) =~= shaders@.map_values(
                    |s: Shader| m0.shaders[s.spec_id()],
                ));
            }
            Ok(Program { id, paths: Vec::new() })
        } else {
            let log = gl.program_info_log(id);
            gl.delete_program(id);
            proof {
                assert(final(gl).model() =~= m0);
            }
            Err(log)
        }
    }

    /// Builds a program from a base resource name: derives the per-stage
    /// file names by appending the stage suffixes, loads and compiles
    /// each stage, links, and records the two resolved source paths.
    /// The first failure aborts the whole composition, and the stage
    /// shaders are released whatever the outcome: on success the new
    /// program is the only change to the device, and on failure the
    /// device is exactly as before.  Every error names the stage file or
    /// base name it concerns.
    pub fn from_resource_name<G: GlApi, F: FileStore>(
        gl: &mut G,
        res: &Resources,
        files: &mut F,
        name: &String,
    ) -> (r: Result<Program, Error>)
        ensures
            match r {
                Ok(p) => {
                    &&& !old(gl).model().programs.contains_key(p.spec_id())
                    &&& p.wf(final(gl).model())
                    &&& p.spec_paths() == seq![
                        res.resource_path(name@ + ".vert"@),
                        res.resource_path(name@ + ".frag"@),
                    ]
                    &&& match (
                        final(files).file(res.resource_path(name@ + ".vert"@)),
                        final(files).file(res.resource_path(name@ + ".frag"@)),
                    ) {
                        (Ok(vs), Ok(fs)) => {
                            &&& !has_nil(vs)
                            &&& !has_nil(fs)
                            &&& final(gl).model() == old(gl).model().with_program(
                                p.spec_id(),
                                ProgramModel {
                                    attached: Seq::empty(),
                                    linked: Some(
                                        seq![
                                            ShaderModel {
                                                kind: ShaderKind::Vertex,
                                                source: vs,
                                                compiled: true,
                                            },
                                            ShaderModel {
                                                kind: ShaderKind::Fragment,
                                                source: fs,
                                                compiled: true,
                                            },
                                        ],
                                    ),
                                },
                            )
                        },
                        _ => false,
                    }
                },
                Err(e) => {
                    &&& final(gl).model() == old(gl).model()
                    &&& build_err_fact(*final(files), *res, name@, e)
                },
            },
            forall|p: Seq<char>|
                p != res.resource_path(name@ + ".vert"@) && p != res.resource_path(
                    name@ + ".frag"@,
                ) ==> final(files).file(p) == old(files).file(p),
    {
        let ghost m0 = old(gl).model();
        let vert_name = name.clone().concat(".vert");
        let frag_name = name.clone().concat(".frag");
        proof {
            reveal_strlit(".vert");
            reveal_strlit(".frag");
            assert(vert_name@.skip(name@.len() as int) =~= ".vert"@);
            assert(frag_name@.skip(name@.len() as int) =~= ".frag"@);
            assert(spec_ends_with(vert_name@, ".vert"@));
            assert(".frag"@[1] != ".vert"@[1]);
            assert(!spec_ends_with(frag_name@, ".vert"@));
            assert(spec_ends_with(frag_name@, ".frag"@));
            lemma_stage_paths_differ(res.root(), name@);
        }
        let (vert, vert_path) = match Shader::from_resource_name(gl, res, files, &vert_name) {
            Ok(pair) => pair,
            Err(e) => {
                return Err(e);
            },
        };
        let (frag, frag_path) = match Shader::from_resource_name(gl, res, files, &frag_name) {
            Ok(pair) => pair,
            Err(e) => {
                vert.release(gl);
                proof {
                    assert(final(gl).model() =~= m0);
                }
                return Err(e);
            },
        };
        let ghost m2 = gl.model();
        let mut stage_shaders: Vec<Shader> = Vec::new();
        stage_shaders.push(vert);
        stage_shaders.push(frag);
        let ghost stages = stage_shaders@;
        let ghost vid = stages[0].spec_id();
        let ghost fid = stages[1].spec_id();
        let linked = Self::from_shaders(gl, &stage_shaders);
        let early = stage_shaders.remove(0);
        early.release(gl);
        let late = stage_shaders.remove(0);
        late.release(gl);
        match linked {
            Ok(mut p) => {
                p.paths.push(vert_path);
                p.paths.push(frag_path);
                proof {
                    assert(p.spec_paths() =~= seq![
                        res.resource_path(name@ + ".vert"@),
                        res.resource_path(name@ + ".frag"@),
                    ]);
                    match (
                        files.file(res.resource_path(name@ + ".vert"@)),
                        files.file(res.resource_path(name@ + ".frag"@)),
                    ) {
                        (Ok(vs), Ok(fs)) => {
                            let vert_model = ShaderModel {
                                kind: ShaderKind::Vertex,
                                source: vs,
                                compiled: true,
                            };
                            let frag_model = ShaderModel {
                                kind: ShaderKind::Fragment,
                                source: fs,
                                compiled: true,
                            };
                            assert(m2.shaders[vid] == vert_model);
                            assert(m2.shaders[fid] == frag_model);
                            assert(stages.map_values(|s: Shader| m2.shaders[s.spec_id()])
                                =~= seq![vert_model, frag_model]);
                            assert(gl.model().shaders =~= m0.shaders);
                            assert(gl.model() =~= m0.with_program(
                                p.spec_id(),
                                ProgramModel {
                                    attached: Seq::empty(),
                                    linked: Some(seq![vert_model, frag_model]),
                                },
                            ));
                        },
                        _ => {
                            assert(false);
                        },
                    }
                }
                Ok(p)
            },
            Err(message) => {
                proof {
                    assert(gl.model() =~= m0);
                }
                Err(Error::LinkError { name: name.clone(), message })
            },
        }
    }

    /// Makes this program the one rendering uses.
    pub fn set_used<G: GlApi>(&self, gl: &mut G)
        requires
            self.wf(old(gl).model()),
        ensures
            final(gl).model() == (GlModel {
                used_program: self.spec_id(),
                ..old(gl).model()
            }),
    {
        gl.use_program(self.id);
    }

    /// Releases the owned program id.  Consuming the owner, this runs at
    /// most once per created program.
    pub fn release<G: GlApi>(self, gl: &mut G)
        requires
            old(gl).model().programs.contains_key(self.spec_id()),
        ensures
            final(gl).model() == (GlModel {
                programs: old(gl).model().programs.remove(self.spec_id()),
                ..old(gl).model()
            }),
    {
        gl.delete_program(self.id);
    }
}

} // verus!
