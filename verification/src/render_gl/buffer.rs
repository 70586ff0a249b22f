//! Buffer and vertex-array owners.
//!
//! A `Buffer<B>` owns one GPU buffer id whose binding target is chosen at
//! compile time by the tag `B`, so vertex-data and index-data buffers
//! share all logic.  A `VertexArray` owns one vertex-array id and only
//! references the buffers recorded into it.  Owners are released
//! explicitly, and a release consumes the owner, so it happens at most
//! once; the contracts show the id leaving the device model exactly then.

use vstd::prelude::*;
use core::marker::PhantomData;
use crate::render_gl::api::BufferTarget;
use crate::render_gl::api::GlApi;
use crate::render_gl::api::GlModel;

verus! {

/// A compile-time tag selecting the binding target of a buffer class.
pub trait BufferType: Sized {
    /// The target this tag stands for.
    spec fn spec_target() -> BufferTarget;

    /// Returns the target this tag stands for.
    fn target() -> (t: BufferTarget)
        ensures
            t == Self::spec_target(),
    ;
}

/// The tag of buffers holding vertex data.
pub struct BufferTypeArray;

impl BufferType for BufferTypeArray {
    open spec fn spec_target() -> BufferTarget {
        BufferTarget::Array
    }

    fn target() -> BufferTarget {
        BufferTarget::Array
    }
}

/// The tag of buffers holding index data.
pub struct BufferTypeElementArray;

impl BufferType for BufferTypeElementArray {
    open spec fn spec_target() -> BufferTarget {
        BufferTarget::ElementArray
    }

    fn target() -> BufferTarget {
        BufferTarget::ElementArray
    }
}

/// A buffer of vertex data.
pub type ArrayBuffer = Buffer<BufferTypeArray>;

/// A buffer of index data.
pub type ElementArrayBuffer = Buffer<BufferTypeElementArray>;

/// The owner of one GPU buffer id, bound through the target `B` selects.
pub struct Buffer<B: BufferType> {
    vbo: u32,
    _marker: PhantomData<B>,
}

impl<B: BufferType> Buffer<B> {
    /// The owned buffer id.
    pub closed spec fn id(self) -> u32 {
        self.vbo
    }

    /// Whether the owned id is live on the given device model.
    pub open spec fn live(self, m: GlModel) -> bool {
        self.id() != 0 && m.buffers.contains_key(self.id())
    }

    /// Allocates a buffer object with empty contents.  `None` only on
    /// unrecoverable loss of the driver or its context.
    pub fn new<G: GlApi>(gl: &mut G) -> (r: Option<Buffer<B>>)
        ensures
            match r {
                Some(b) => {
                    &&& !old(gl).model().buffers.contains_key(b.id())
                    &&& b.live(final(gl).model())
                    &&& final(gl).model() == (GlModel {
                        buffers: old(gl).model().buffers.insert(b.id(), Seq::empty()),
                        ..old(gl).model()
                    })
                },
                None => final(gl).model() == old(gl).model(),
            },
    {
        match gl.gen_buffer() {
            Some(vbo) => Some(Buffer { vbo, _marker: PhantomData }),
            None => None,
        }
    }

    /// Binds the owned buffer to its target.
    pub fn bind<G: GlApi>(&self, gl: &mut G)
        requires
            self.live(old(gl).model()),
            old(gl).model().bound_vao != 0 ==> old(gl).model().vaos.contains_key(
                old(gl).model().bound_vao,
            ),
        ensures
            final(gl).model() == old(gl).model().with_binding(B::spec_target(), self.id()),
    {
        gl.bind_buffer(B::target(), self.vbo);
    }

    /// Unbinds whatever buffer is bound to this class's target.
    pub fn unbind<G: GlApi>(&self, gl: &mut G)
        requires
            old(gl).model().bound_vao != 0 ==> old(gl).model().vaos.contains_key(
                old(gl).model().bound_vao,
            ),
        ensures
            final(gl).model() == old(gl).model().with_binding(B::spec_target(), 0),
    {
        gl.bind_buffer(B::target(), 0);
    }

    /// Replaces the whole contents of the owned buffer, which must be the
    /// one bound to its target, for static drawing.
    pub fn static_draw<G: GlApi>(&self, gl: &mut G, data: &Vec<u8>)
        requires
            self.live(old(gl).model()),
            old(gl).model().bound_vao != 0 ==> old(gl).model().vaos.contains_key(
                old(gl).model().bound_vao,
            ),
            old(gl).model().bound(B::spec_target()) == self.id(),
        ensures
            final(gl).model() == (GlModel {
                buffers: old(gl).model().buffers.insert(self.id(), data@),
                ..old(gl).model()
            }),
    {
        gl.buffer_data(B::target(), data);
    }

    /// Releases the owned buffer id.  Consuming the owner, this runs at
    /// most once per created buffer.
    pub fn release<G: GlApi>(self, gl: &mut G)
        requires
            self.live(old(gl).model()),
        ensures
            final(gl).model() == (GlModel {
                buffers: old(gl).model().buffers.remove(self.id()),
                bound_array: if old(gl).model().bound_array == self.id() {
                    0
                } else {
                    old(gl).model().bound_array
                },
                bound_element: if old(gl).model().bound_element == self.id() {
                    0
                } else {
                    old(gl).model().bound_element
                },
                ..old(gl).model()
            }),
    {
        gl.delete_buffer(self.vbo);
    }
}

/// Law: what an upload stores is what a read-back yields.  After
/// uploading `data` into a buffer — the model `static_draw` leaves
/// behind — the device holds exactly `data` for that buffer, whatever it
/// held before, for contents of any length.  A capture device's
/// read-back returns this very sequence.
pub proof fn lemma_upload_read_back(m: GlModel, id: u32, data: Seq<u8>)
    ensures
        (GlModel { buffers: m.buffers.insert(id, data), ..m }).buffers[id] == data,
        (GlModel { buffers: m.buffers.insert(id, data), ..m }).buffers[id].len() == data.len(),
{
}

/// The owner of one vertex-array id.
pub struct VertexArray {
    vao: u32,
}

impl VertexArray {
    /// The owned vertex-array id.
    pub closed spec fn id(self) -> u32 {
        self.vao
    }

    /// Whether the owned id is live on the given device model.
    pub open spec fn live(self, m: GlModel) -> bool {
        self.id() != 0 && m.vaos.contains_key(self.id())
    }

    /// Allocates a vertex array with no recorded attributes.  `None` only
    /// on unrecoverable loss of the driver or its context.
    pub fn new<G: GlApi>(gl: &mut G) -> (r: Option<VertexArray>)
        ensures
            match r {
                Some(v) => {
                    &&& !old(gl).model().vaos.contains_key(v.id())
                    &&& v.live(final(gl).model())
                    &&& final(gl).model() == (GlModel {
                        vaos: old(gl).model().vaos.insert(
                            v.id(),
                            crate::render_gl::api::VaoModel { attribs: Map::empty(), element: 0 },
                        ),
                        ..old(gl).model()
                    })
                },
                None => final(gl).model() == old(gl).model(),
            },
    {
        match gl.gen_vertex_array() {
            Some(vao) => Some(VertexArray { vao }),
            None => None,
        }
    }

    /// Binds the owned vertex array.
    pub fn bind<G: GlApi>(&self, gl: &mut G)
        requires
            self.live(old(gl).model()),
        ensures
            final(gl).model() == (GlModel { bound_vao: self.id(), ..old(gl).model() }),
    {
        gl.bind_vertex_array(self.vao);
    }

    /// Unbinds whatever vertex array is bound.
    pub fn unbind<G: GlApi>(&self, gl: &mut G)
        ensures
            final(gl).model() == (GlModel { bound_vao: 0, ..old(gl).model() }),
    {
        gl.bind_vertex_array(0);
    }

    /// Releases the owned vertex-array id.  Consuming the owner, this runs
    /// at most once per created vertex array.
    pub fn release<G: GlApi>(self, gl: &mut G)
        requires
            self.live(old(gl).model()),
        ensures
            final(gl).model() == (GlModel {
                vaos: old(gl).model().vaos.remove(self.id()),
                bound_vao: if old(gl).model().bound_vao == self.id() {
                    0
                } else {
                    old(gl).model().bound_vao
                },
                ..old(gl).model()
            }),
    {
        gl.delete_vertex_array(self.vao);
    }
}

} // verus!
