//! Resource loading.
//!
//! A logical, slash-separated resource name is resolved under a root path
//! fixed once at startup, and the named file's bytes are fetched through a
//! `FileStore` — the crate's view of a file system.  A fetched buffer is
//! only accepted if it is free of zero bytes, so its contents can later be
//! handed to interfaces expecting zero-terminated text.

use vstd::prelude::*;
use notify::Watcher;

verus! {

/// Why a file could not be read.
#[derive(Clone, Copy, PartialEq, Eq, Structural, Debug)]
pub enum IoKind {
    /// The file does not exist.
    NotFound,
    /// The file exists but may not be read.
    PermissionDenied,
    /// Any other read failure.
    Other,
}

/// A resource-loading failure.
#[derive(Clone, Copy, PartialEq, Eq, Structural, Debug)]
pub enum Error {
    /// The directory of the running executable could not be resolved, so
    /// no resource root exists.  Raised by hosts while building a
    /// `Resources`, never by the loader itself.
    FailedToGetExePath,
    /// The file could not be read.
    Io(IoKind),
    /// The file was read but holds a zero byte, so it cannot be treated as
    /// zero-terminated text.
    FileContainsNil,
}

/// A loaded resource: its validated bytes and the path it was read from.
#[derive(Debug)]
pub struct Source {
    /// The file's bytes, free of zero bytes.
    pub content: Vec<u8>,
    /// The resolved path the bytes were read from.
    pub path: String,
}

/// Whether a byte sequence holds a zero byte anywhere.
pub open spec fn has_nil(bytes: Seq<u8>) -> bool {
    exists|i: int| 0 <= i < bytes.len() && bytes[i] == 0
}

/// A source of file contents by path.
///
/// `file` is the store's answer for each path as last observed: reading
/// a path refreshes the answer recorded for it — on a live file system
/// files change between reads — and leaves the answer recorded for every
/// other path as it was.
pub trait FileStore: Sized {
    /// The bytes (or failure) the store last answered, or would answer,
    /// for each path.  Implementations give this its meaning; the
    /// default leaves it unconstrained.
    open spec fn file(&self, path: Seq<char>) -> Result<Seq<u8>, IoKind> {
        vstd::pervasive::arbitrary()
    }

    /// Reads the whole file at `path`.
    fn read(&mut self, path: &String) -> (r: Result<Vec<u8>, IoKind>)
        ensures
            match r {
                Ok(bytes) => final(self).file(path@) == Ok::<Seq<u8>, IoKind>(bytes@),
                Err(k) => final(self).file(path@) == Err::<Seq<u8>, IoKind>(k),
            },
            forall|p: Seq<char>| p != path@ ==> final(self).file(p) == old(self).file(p),
    ;
}

/// Joins a slash-separated logical resource name onto a root directory,
/// producing the path the resource is read from.
pub fn resource_name_to_path(root_dir: &String, location: &String) -> (path: String)
    ensures
        path@ == root_dir@ + "/"@ + location@,
{
    let mut path = root_dir.clone();
    path.append("/");
    path.append(location.as_str());
    path
}

/// What a failed load says of the store: an `Io` failure is the store's
/// own answer for the path, and a nil rejection means the store answered
/// with bytes holding a zero.
pub open spec fn load_err_fact<F: FileStore>(files: F, path: Seq<char>, e: Error) -> bool {
    match e {
        Error::Io(k) => files.file(path) == Err::<Seq<u8>, IoKind>(k),
        Error::FileContainsNil => match files.file(path) {
            Ok(bytes) => has_nil(bytes),
            Err(_) => false,
        },
        Error::FailedToGetExePath => false,
    }
}

/// Whether the store's recorded answer for a path is nil-free bytes:
/// the file was there and loadable as zero-terminated-capable text.
pub open spec fn file_ok_nil_free<F: FileStore>(files: F, path: Seq<char>) -> bool {
    match files.file(path) {
        Ok(bytes) => !has_nil(bytes),
        Err(_) => false,
    }
}

/// Whether a path is absolute: it begins with the separator, as on the
/// platforms the recommended watcher serves.
pub open spec fn is_absolute_path(path: Seq<char>) -> bool {
    path.len() > 0 && path[0] == '/'
}

/// A resource loader rooted at one directory.
pub struct Resources {
    root_path: String,
}

impl Resources {
    /// The root directory resource names are resolved under.
    pub closed spec fn root(self) -> Seq<char> {
        self.root_path@
    }

    /// The path a logical resource name resolves to.
    pub open spec fn resource_path(self, name: Seq<char>) -> Seq<char> {
        self.root() + "/"@ + name
    }

    /// A loader rooted at the given directory, fixed for the loader's
    /// lifetime.  Hosts resolve the directory — typically one next to the
    /// running executable — before building the loader.
    pub fn from_root_path(root_path: String) -> (r: Resources)
        ensures
            r.root() == root_path@,
    {
        Resources { root_path }
    }

    /// Loads a named resource as zero-terminated-capable text: resolves
    /// the name under the root, reads the file, and accepts the bytes if
    /// and only if none of them is zero.
    pub fn load_cstring<F: FileStore>(&self, files: &mut F, resource_name: &String) -> (r: Result<
        Source,
        Error,
    >)
        ensures
            match r {
                Ok(source) => {
                    &&& source.path@ == self.resource_path(resource_name@)
                    &&& final(files).file(source.path@) == Ok::<Seq<u8>, IoKind>(source.content@)
                    &&& !has_nil(source.content@)
                },
                Err(e) => load_err_fact(*final(files), self.resource_path(resource_name@), e),
            },
            forall|p: Seq<char>|
                p != self.resource_path(resource_name@) ==> final(files).file(p) == old(
                    files,
                ).file(p),
    {
        let path = resource_name_to_path(&self.root_path, resource_name);
        match files.read(&path) {
            Err(k) => Err(Error::Io(k)),
            Ok(buffer) => {
                let mut i: usize = 0;
                while i < buffer.len()
                    invariant
                        0 <= i <= buffer.len(),
                        forall|j: int| 0 <= j < i ==> buffer@[j] != 0,
                        path@ == self.resource_path(resource_name@),
                        files.file(path@) == Ok::<Seq<u8>, IoKind>(buffer@),
                        forall|p: Seq<char>| p != path@ ==> files.file(p) == old(files).file(p),
                    decreases buffer.len() - i,
                {
                    if buffer[i] == 0 {
                        proof {
                            assert(has_nil(buffer@));
                        }
                        return Err(Error::FileContainsNil);
                    }
                    i = i + 1;
                }
                proof {
                    assert(!has_nil(buffer@));
                }
                Ok(Source { content: buffer, path })
            },
        }
    }
}

/// Law: paths resolved under an absolute root are absolute.  A host
/// that fixes an absolute resource root — as hosts resolving it next to
/// the running executable do — therefore only ever exposes absolute
/// paths to watch, the form the watch registry expects.
pub proof fn lemma_absolute_root_resource_paths(res: Resources, name: Seq<char>)
    requires
        is_absolute_path(res.root()),
    ensures
        is_absolute_path(res.resource_path(name)),
{
}

/// A resource that can rebuild its GPU-side state in place from its
/// source files while the host keeps running.
///
/// A reload either fully replaces the compiled and linked state or — on
/// failure — leaves the resource and the device exactly as they were, so
/// the resource stays usable with its previous state.
pub trait Reloadable: Sized {
    /// The resolved paths of the source files the resource depends on,
    /// for a host to watch.
    spec fn watched(&self) -> Seq<Seq<char>>;

    /// Whether the resource is fully built and usable on the given
    /// device model.
    spec fn wf(&self, m: crate::render_gl::api::GlModel) -> bool;

    /// The id of the program a reload replaces: the only program entry
    /// the resource's usability rests on.
    spec fn owned_program_id(&self) -> u32;

    /// A usable resource's own program entry is live.
    proof fn wf_owned(&self, m: crate::render_gl::api::GlModel)
        requires
            self.wf(m),
        ensures
            m.programs.contains_key(self.owned_program_id()),
    ;

    /// Usability rests only on the resource's own program entry and the
    /// shared shader, buffer and vertex-array tables: a device change
    /// leaving those alone leaves the resource usable.
    proof fn wf_frame(
        &self,
        m1: crate::render_gl::api::GlModel,
        m2: crate::render_gl::api::GlModel,
    )
        requires
            self.wf(m1),
            m1.programs.contains_key(self.owned_program_id()),
            m2.programs.contains_key(self.owned_program_id()),
            m2.programs[self.owned_program_id()] == m1.programs[self.owned_program_id()],
            m2.shaders == m1.shaders,
            m2.buffers == m1.buffers,
            m2.vaos == m1.vaos,
        ensures
            self.wf(m2),
    ;

    /// Returns the watched source paths.
    fn get_paths(&self) -> (p: &Vec<String>)
        ensures
            p@.map_values(|s: String| s@) == self.watched(),
    ;

    /// Rebuilds the resource from its sources.  On success a fresh
    /// program entry replaces the resource's own and nothing else on the
    /// device changes.  On failure the resource and the device are
    /// exactly as before.  Either way the resource stays usable.
    fn reload<G: crate::render_gl::api::GlApi, F: FileStore>(
        &mut self,
        gl: &mut G,
        res: &Resources,
        files: &mut F,
    ) -> (r: Result<(), crate::render_gl::shader::Error>)
        requires
            old(self).wf(old(gl).model()),
        ensures
            final(self).wf(final(gl).model()),
            r is Err ==> *final(self) == *old(self) && final(gl).model() == old(gl).model(),
            r is Ok ==> !old(gl).model().programs.contains_key(final(self).owned_program_id())
                && final(gl).model() == (crate::render_gl::api::GlModel {
                programs: old(gl).model().programs.remove(old(self).owned_program_id()).insert(
                    final(self).owned_program_id(),
                    final(gl).model().programs[final(self).owned_program_id()],
                ),
                ..old(gl).model()
            }),
    ;
}

/// One entry of an in-memory file table.
pub struct FileEntry {
    /// The path the entry answers for.
    pub path: String,
    /// The file contents.
    pub content: Vec<u8>,
}

/// An in-memory `FileStore`: a fixed table from paths to contents.  Paths
/// not in the table read as missing.  Later additions shadow earlier ones.
pub struct MemoryFiles {
    entries: Vec<FileEntry>,
}

/// The answer of an entry table for one path: the contents of the first
/// entry whose path matches, or "not found".
pub open spec fn table_lookup(entries: Seq<FileEntry>, path: Seq<char>) -> Result<
    Seq<u8>,
    IoKind,
>
    decreases entries.len(),
{
    if entries.len() == 0 {
        Err(IoKind::NotFound)
    } else if entries[0].path@ == path {
        Ok(entries[0].content@)
    } else {
        table_lookup(entries.skip(1), path)
    }
}

impl MemoryFiles {
    /// An empty store: every path reads as missing.
    pub fn new() -> (r: MemoryFiles)
        ensures
            forall|p: Seq<char>| r.file(p) == Err::<Seq<u8>, IoKind>(IoKind::NotFound),
    {
        MemoryFiles { entries: Vec::new() }
    }

    /// Puts a file into the store, shadowing any earlier entry for the
    /// same path.
    pub fn add_file(&mut self, path: String, content: Vec<u8>)
        ensures
            forall|p: Seq<char>|
                final(self).file(p) == if p == path@ {
                    Ok::<Seq<u8>, IoKind>(content@)
                } else {
                    old(self).file(p)
                },
    {
        self.entries.insert(0, FileEntry { path, content });
        proof {
            assert(self.entries@.skip(1) =~= old(self).entries@);
        }
    }
}

impl FileStore for MemoryFiles {
    closed spec fn file(&self, path: Seq<char>) -> Result<Seq<u8>, IoKind> {
        table_lookup(self.entries@, path)
    }

    /// Reading never changes the table, and answers exactly what the
    /// table records — said here over and above the trait's contract,
    /// so callers holding a concrete in-memory store know its answers
    /// survive any number of reads.
    fn read(&mut self, path: &String) -> (r: Result<Vec<u8>, IoKind>)
        ensures
            *final(self) == *old(self),
            match r {
                Ok(bytes) => old(self).file(path@) == Ok::<Seq<u8>, IoKind>(bytes@),
                Err(k) => old(self).file(path@) == Err::<Seq<u8>, IoKind>(k),
            },
    {
        proof {
            assert(self.entries@.skip(0) =~= self.entries@);
        }
        let mut i: usize = 0;
        while i < self.entries.len()
            invariant
                0 <= i <= self.entries.len(),
                table_lookup(self.entries@, path@) == table_lookup(
                    self.entries@.skip(i as int),
                    path@,
                ),
            decreases self.entries.len() - i,
        {
            if self.entries[i].path.eq(path) {
                proof {
                    assert(self.entries@.skip(i as int)[0] == self.entries@[i as int]);
                }
                let content = self.entries[i].content.clone();
                proof {
                    assert(content@ =~= self.entries@[i as int].content@);
                }
                return Ok(content);
            }
            proof {
                assert(self.entries@.skip(i as int).skip(1) =~= self.entries@.skip(i as int + 1));
                assert(self.entries@.skip(i as int)[0] == self.entries@[i as int]);
            }
            i = i + 1;
        }
        proof {
            assert(self.entries@.skip(i as int).len() == 0);
        }
        Err(IoKind::NotFound)
    }
}

/// The platform file watcher behind `notify::RecommendedWatcher`.
#[verifier::external_type_specification]
#[verifier::external_body]
pub struct ExINotifyWatcher(notify::INotifyWatcher);

/// A raw change notification of the `notify` crate.
#[verifier::external_type_specification]
#[verifier::external_body]
pub struct ExRawEvent(notify::RawEvent);

/// A sending handle of a standard channel.
#[verifier::external_type_specification]
#[verifier::external_body]
#[verifier::reject_recursive_types(T)]
pub struct ExMpscSender<T>(std::sync::mpsc::Sender<T>);

/// A receiving handle of a standard channel.
#[verifier::external_type_specification]
#[verifier::external_body]
#[verifier::reject_recursive_types(T)]
pub struct ExMpscReceiver<T>(std::sync::mpsc::Receiver<T>);

/// Relies on std::sync::mpsc::channel: a fresh unbounded channel pair
/// whose receiver hands out what the sender accepted.
#[verifier::external_body]
fn event_channel() -> (r: (
    std::sync::mpsc::Sender<notify::RawEvent>,
    std::sync::mpsc::Receiver<notify::RawEvent>,
)) {
    std::sync::mpsc::channel()
}

/// Relies on notify::raw_watcher: starts the platform's file watcher on
/// a background thread, delivering one raw event per change to the
/// sender; `None` when the platform watcher cannot start.
#[verifier::external_body]
fn start_raw_watcher(tx: std::sync::mpsc::Sender<notify::RawEvent>) -> (r: Option<
    notify::RecommendedWatcher,
>) {
    match notify::raw_watcher(tx) {
        Ok(watcher) => Some(watcher),
        Err(_) => None,
    }
}

/// Relies on notify::Watcher::watch: begins watching the directory tree
/// or file at the path, recursively; `false` when the watcher refuses
/// the path.
#[verifier::external_body]
fn watch_recursive(w: &mut notify::RecommendedWatcher, path: &String) -> (r: bool) {
    w.watch(path.as_str(), notify::RecursiveMode::Recursive).is_ok()
}

/// Relies on std::sync::mpsc::Receiver::try_recv: takes one pending
/// event without blocking, or reports that none is queued.
#[verifier::external_body]
fn try_recv_event(rx: &std::sync::mpsc::Receiver<notify::RawEvent>) -> (r: Option<
    notify::RawEvent,
>) {
    match rx.try_recv() {
        Ok(event) => Some(event),
        Err(_) => None,
    }
}

/// The watch registry: one filesystem watcher per process, pushing raw
/// change notifications from its background thread onto one unbounded
/// channel that the render thread drains without blocking.  The paths
/// registered so far are recorded for the contracts.  They are handed
/// to the platform watcher exactly as the resource exposes them, so
/// they are absolute exactly when the loader's root is — see
/// `lemma_absolute_root_resource_paths`; hosts fix an absolute root at
/// startup.
pub struct ResourceWatcher {
    watcher: notify::RecommendedWatcher,
    rx: std::sync::mpsc::Receiver<notify::RawEvent>,
    watched: Vec<String>,
}

impl ResourceWatcher {
    /// The views of the paths registered so far, in registration order.
    pub closed spec fn watched_paths(&self) -> Seq<Seq<char>> {
        self.watched@.map_values(|s: String| s@)
    }

    /// Starts the process's filesystem watcher with nothing registered.
    pub fn new() -> (r: Result<ResourceWatcher, Error>)
        ensures
            match r {
                Ok(w) => w.watched_paths() == Seq::<Seq<char>>::empty(),
                Err(e) => e == Error::Io(IoKind::Other),
            },
    {
        let (tx, rx) = event_channel();
        match start_raw_watcher(tx) {
            Some(watcher) => {
                let w = ResourceWatcher { watcher, rx, watched: Vec::new() };
                proof {
                    assert(w.watched_paths() =~= Seq::<Seq<char>>::empty());
                }
                Ok(w)
            },
            None => Err(Error::Io(IoKind::Other)),
        }
    }

    /// Registers a reload-capable resource: watches, recursively, every
    /// path the resource exposes.  A path the watcher refuses stops the
    /// registration there, leaving the paths before it registered.
    pub fn add_reloadable<R: Reloadable>(&mut self, item: &R) -> (r: Result<(), Error>)
        ensures
            match r {
                Ok(()) => final(self).watched_paths() == old(self).watched_paths()
                    + item.watched(),
                Err(e) => e == Error::Io(IoKind::Other) && (exists|k: int|
                    0 <= k <= item.watched().len() && final(self).watched_paths() == old(
                        self,
                    ).watched_paths() + item.watched().take(k)),
            },
    {
        let paths = item.get_paths();
        let ghost watched0 = self.watched@.map_values(|s: String| s@);
        proof {
            assert(self.watched@.map_values(|s: String| s@) =~= watched0 + item.watched().take(0));
        }
        let mut i: usize = 0;
        while i < paths.len()
            invariant
                0 <= i <= paths@.len(),
                paths@.map_values(|s: String| s@) == item.watched(),
                watched0 == old(self).watched@.map_values(|s: String| s@),
                self.watched@.map_values(|s: String| s@) == watched0 + item.watched().take(
                    i as int,
                ),
            decreases paths@.len() - i,
        {
            if watch_recursive(&mut self.watcher, &paths[i]) {
                let ghost w0 = self.watched@;
                let path = paths[i].clone();
                let ghost pushed = path;
                self.watched.push(path);
                proof {
                    assert(self.watched@ == w0.push(pushed));
                    assert(w0.map_values(|s: String| s@).len() == watched0.len() + i);
                    assert(pushed@ == item.watched()[i as int]);
                    assert(self.watched@.map_values(|s: String| s@) =~= w0.map_values(
                        |s: String| s@,
                    ).push(pushed@));
                    assert(w0.map_values(|s: String| s@).push(pushed@) =~= watched0
                        + item.watched().take(i as int + 1));
                }
            } else {
                proof {
                    assert(self.watched@.map_values(|s: String| s@) == watched0
                        + item.watched().take(i as int));
                }
                return Err(Error::Io(IoKind::Other));
            }
            i = i + 1;
        }
        proof {
            assert(item.watched().take(paths@.len() as int) =~= item.watched());
        }
        Ok(())
    }

    /// Takes one pending change notification, if any, without blocking.
    pub fn poll_event(&self) -> (r: Option<notify::RawEvent>) {
        try_recv_event(&self.rx)
    }
}

/// How many pending notifications one drain step takes at most, so a
/// step always finishes; anything beyond waits for the next step.
pub const MAX_DRAIN_PER_STEP: usize = 1024;

/// The reload coordinator's per-frame step: drains the pending change
/// notifications and, for each one, rebuilds both registered resources
/// in place — deliberately regardless of which path the notification
/// names — keeping a resource's previous working state when its reload
/// fails.  Failures are counted for the host to log, never propagated;
/// both resources are usable afterwards whatever happened.
pub fn drain_and_reload<
    G: crate::render_gl::api::GlApi,
    F: FileStore,
    R1: Reloadable,
    R2: Reloadable,
>(
    watcher: &ResourceWatcher,
    gl: &mut G,
    res: &Resources,
    files: &mut F,
    first: &mut R1,
    second: &mut R2,
) -> (failures: usize)
    requires
        old(first).wf(old(gl).model()),
        old(second).wf(old(gl).model()),
        old(first).owned_program_id() != old(second).owned_program_id(),
    ensures
        final(first).wf(final(gl).model()),
        final(second).wf(final(gl).model()),
        final(first).owned_program_id() != final(second).owned_program_id(),
{
    let mut failures: usize = 0;
    let mut budget: usize = MAX_DRAIN_PER_STEP;
    loop
        invariant
            first.wf(gl.model()),
            second.wf(gl.model()),
            first.owned_program_id() != second.owned_program_id(),
        decreases budget,
    {
        if budget == 0 {
            return failures;
        }
        budget = budget - 1;
        match watcher.poll_event() {
            None => {
                return failures;
            },
            Some(_) => {
                let ghost m0 = gl.model();
                let ghost second0 = *second;
                match first.reload(gl, res, files) {
                    Ok(()) => {
                        proof {
                            second.wf_owned(m0);
                            second.wf_frame(m0, gl.model());
                        }
                    },
                    Err(_) => {
                        if failures < usize::MAX {
                            failures = failures + 1;
                        }
                    },
                }
                let ghost m1 = gl.model();
                match second.reload(gl, res, files) {
                    Ok(()) => {
                        proof {
                            first.wf_owned(m1);
                            first.wf_frame(m1, gl.model());
                        }
                    },
                    Err(_) => {
                        if failures < usize::MAX {
                            failures = failures + 1;
                        }
                    },
                }
            },
        }
    }
}

} // verus!
