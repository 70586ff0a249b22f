//! Vertex attribute data descriptions.
//!
//! Each vertex field format is described by an explicit, ordered layout
//! entry: component count, numeric kind, normalize flag and byte offset.
//! One generic routine consumes such a layout and records the
//! attribute-pointer bindings on the device, so every field format shares
//! the same binding logic.

use vstd::prelude::*;
use crate::render_gl::api::GlApi;
use crate::render_gl::api::GlModel;
use crate::render_gl::api::AttribBinding;

verus! {

/// The numeric interpretation of one vertex attribute.
#[derive(Clone, Copy, PartialEq, Eq, Structural, Debug)]
pub enum AttribKind {
    /// A signed byte per component.
    Byte,
    /// A 32-bit float per component.
    Float,
    /// Four components packed into one 32-bit word, two alpha bits first.
    UInt2101010Rev,
}

/// One entry of a vertex layout: where a field sits in the vertex record
/// and how the device reads it.
#[derive(Clone, Copy, PartialEq, Eq, Structural, Debug)]
pub struct VertexAttrib {
    /// The attribute index the field is bound to.
    pub location: u32,
    /// How many components the field has.
    pub components: u32,
    /// The numeric kind of each component.
    pub kind: AttribKind,
    /// Whether integer data is normalized to the unit range.
    pub normalized: bool,
    /// Byte offset of the field within one vertex record.
    pub offset: usize,
}

/// A full per-vertex layout: the record stride and the ordered field entries.
pub struct VertexLayout {
    /// Size in bytes of one vertex record.
    pub stride: usize,
    /// The field entries, in field order.
    pub attribs: Vec<VertexAttrib>,
}

/// The attribute map of a vertex array after recording `attribs` in order,
/// each entry capturing the currently bound array buffer and the stride.
pub open spec fn apply_layout(
    m: Map<u32, AttribBinding>,
    attribs: Seq<VertexAttrib>,
    buffer: u32,
    stride: usize,
) -> Map<u32, AttribBinding>
    decreases attribs.len(),
{
    if attribs.len() == 0 {
        m
    } else {
        apply_layout(
            m.insert(attribs[0].location, AttribBinding { buffer, attrib: attribs[0], stride }),
            attribs.skip(1),
            buffer,
            stride,
        )
    }
}

/// Records every entry of `layout` on the vertex array currently bound,
/// reading from the array buffer currently bound.
pub fn vertex_attrib_pointers<G: GlApi>(gl: &mut G, layout: &VertexLayout)
    requires
        old(gl).model().bound_vao != 0,
        old(gl).model().vaos.contains_key(old(gl).model().bound_vao),
        old(gl).model().bound_array != 0,
        old(gl).model().buffers.contains_key(old(gl).model().bound_array),
    ensures
        final(gl).model() == old(gl).model().with_vao_attribs(
            old(gl).model().bound_vao,
            apply_layout(
                old(gl).model().vaos[old(gl).model().bound_vao].attribs,
                layout.attribs@,
                old(gl).model().bound_array,
                layout.stride,
            ),
        ),
{
    let ghost m0 = old(gl).model();
    let ghost vao = m0.bound_vao;
    proof {
        assert(layout.attribs@.take(0) =~= Seq::<VertexAttrib>::empty());
        assert(gl.model() =~= m0.with_vao_attribs(
            vao,
            apply_layout(m0.vaos[vao].attribs, layout.attribs@.take(0), m0.bound_array, layout.stride),
        ));
    }
    let mut i: usize = 0;
    while i < layout.attribs.len()
        invariant
            0 <= i <= layout.attribs.len(),
            m0.bound_vao != 0,
            m0.vaos.contains_key(m0.bound_vao),
            m0.bound_array != 0,
            m0.buffers.contains_key(m0.bound_array),
            vao == m0.bound_vao,
            gl.model() == m0.with_vao_attribs(
                vao,
                apply_layout(m0.vaos[vao].attribs, layout.attribs@.take(i as int), m0.bound_array, layout.stride),
            ),
        decreases layout.attribs.len() - i,
    {
        let attrib = layout.attribs[i];
        gl.vertex_attrib_pointer(&attrib, layout.stride);
        proof {
            lemma_apply_layout_snoc(
                m0.vaos[vao].attribs,
                layout.attribs@,
                i as int,
                m0.bound_array,
                layout.stride,
            );
            assert(gl.model() =~= m0.with_vao_attribs(
                vao,
                apply_layout(
                    m0.vaos[vao].attribs,
                    layout.attribs@.take(i as int + 1),
                    m0.bound_array,
                    layout.stride,
                ),
            ));
        }
        i = i + 1;
    }
    proof {
        assert(layout.attribs@.take(layout.attribs@.len() as int) =~= layout.attribs@);
    }
}

/// Recording one more entry after a prefix inserts that entry into the
/// attribute map the prefix produced.
proof fn lemma_apply_layout_snoc(
    m: Map<u32, AttribBinding>,
    attribs: Seq<VertexAttrib>,
    i: int,
    buffer: u32,
    stride: usize,
)
    requires
        0 <= i < attribs.len(),
    ensures
        apply_layout(m, attribs.take(i + 1), buffer, stride) == apply_layout(
            m,
            attribs.take(i),
            buffer,
            stride,
        ).insert(attribs[i].location, AttribBinding { buffer, attrib: attribs[i], stride }),
    decreases i,
{
    if i == 0 {
        assert(attribs.take(0) =~= Seq::<VertexAttrib>::empty());
        assert(attribs.take(1)[0] == attribs[0]);
        assert(attribs.take(1).skip(1) =~= Seq::<VertexAttrib>::empty());
        assert(apply_layout(m, attribs.take(1), buffer, stride) == apply_layout(
            m.insert(attribs[0].location, AttribBinding { buffer, attrib: attribs[0], stride }),
            attribs.take(1).skip(1),
            buffer,
            stride,
        ));
    } else {
        let m1 = m.insert(
            attribs[0].location,
            AttribBinding { buffer, attrib: attribs[0], stride },
        );
        assert(attribs.take(i)[0] == attribs[0]);
        assert(attribs.take(i + 1)[0] == attribs[0]);
        assert(attribs.take(i).skip(1) =~= attribs.skip(1).take(i - 1));
        assert(attribs.take(i + 1).skip(1) =~= attribs.skip(1).take(i));
        assert(attribs.skip(1)[i - 1] == attribs[i]);
        lemma_apply_layout_snoc(m1, attribs.skip(1), i - 1, buffer, stride);
    }
}

/// The byte size of one vertex record both built-in shapes share.
pub const VERTEX_STRIDE: usize = 16;

/// The per-field layout of the shared vertex record: a three-float
/// position at offset 0 and a packed, normalized color at offset 12.
pub open spec fn vertex_attribs() -> Seq<VertexAttrib> {
    seq![
        VertexAttrib {
            location: 0,
            components: 3,
            kind: AttribKind::Float,
            normalized: false,
            offset: 0,
        },
        VertexAttrib {
            location: 1,
            components: 4,
            kind: AttribKind::UInt2101010Rev,
            normalized: true,
            offset: 12,
        },
    ]
}

/// Builds the shared vertex layout descriptor.
pub fn vertex_layout() -> (r: VertexLayout)
    ensures
        r.attribs@ == vertex_attribs(),
        r.stride == VERTEX_STRIDE,
{
    let mut attribs: Vec<VertexAttrib> = Vec::new();
    attribs.push(
        VertexAttrib {
            location: 0,
            components: 3,
            kind: AttribKind::Float,
            normalized: false,
            offset: 0,
        },
    );
    attribs.push(
        VertexAttrib {
            location: 1,
            components: 4,
            kind: AttribKind::UInt2101010Rev,
            normalized: true,
            offset: 12,
        },
    );
    proof {
        assert(attribs@ =~= vertex_attribs());
    }
    VertexLayout { stride: VERTEX_STRIDE, attribs }
}

/// A one-byte vertex field holding a signed byte read as an integer.
#[allow(non_camel_case_types)]
#[derive(Clone, Copy, PartialEq, Eq, Structural, Debug)]
pub struct gl_i8 {
    pub d0: i8,
}

impl gl_i8 {
    /// Records this field's attribute pointer: one signed byte, not normalized.
    pub fn vertex_attrib_pointer<G: GlApi>(gl: &mut G, location: u32, stride: usize, offset: usize)
        requires
            old(gl).model().bound_vao != 0,
            old(gl).model().vaos.contains_key(old(gl).model().bound_vao),
            old(gl).model().bound_array != 0,
            old(gl).model().buffers.contains_key(old(gl).model().bound_array),
        ensures
            final(gl).model() == old(gl).model().with_attrib(
                location,
                VertexAttrib {
                    location,
                    components: 1,
                    kind: AttribKind::Byte,
                    normalized: false,
                    offset,
                },
                stride,
            ),
    {
        let attrib = VertexAttrib {
            location,
            components: 1,
            kind: AttribKind::Byte,
            normalized: false,
            offset,
        };
        gl.vertex_attrib_pointer(&attrib, stride);
    }
}

impl From<i8> for gl_i8 {
    fn from(d0: i8) -> (r: Self) {
        gl_i8 { d0 }
    }
}

impl vstd::std_specs::convert::FromSpecImpl<i8> for gl_i8 {
    open spec fn obeys_from_spec() -> bool {
        true
    }

    open spec fn from_spec(d0: i8) -> Self {
        gl_i8 { d0 }
    }
}

/// A one-byte vertex field holding a signed byte normalized to a float.
#[allow(non_camel_case_types)]
#[derive(Clone, Copy, PartialEq, Eq, Structural, Debug)]
pub struct gl_i8_float {
    pub d0: i8,
}

impl gl_i8_float {
    /// Records this field's attribute pointer: one signed byte, normalized.
    pub fn vertex_attrib_pointer<G: GlApi>(gl: &mut G, location: u32, stride: usize, offset: usize)
        requires
            old(gl).model().bound_vao != 0,
            old(gl).model().vaos.contains_key(old(gl).model().bound_vao),
            old(gl).model().bound_array != 0,
            old(gl).model().buffers.contains_key(old(gl).model().bound_array),
        ensures
            final(gl).model() == old(gl).model().with_attrib(
                location,
                VertexAttrib {
                    location,
                    components: 1,
                    kind: AttribKind::Byte,
                    normalized: true,
                    offset,
                },
                stride,
            ),
    {
        let attrib = VertexAttrib {
            location,
            components: 1,
            kind: AttribKind::Byte,
            normalized: true,
            offset,
        };
        gl.vertex_attrib_pointer(&attrib, stride);
    }
}

impl From<i8> for gl_i8_float {
    fn from(d0: i8) -> (r: Self) {
        gl_i8_float { d0 }
    }
}

impl vstd::std_specs::convert::FromSpecImpl<i8> for gl_i8_float {
    open spec fn obeys_from_spec() -> bool {
        true
    }

    open spec fn from_spec(d0: i8) -> Self {
        gl_i8_float { d0 }
    }
}

} // verus!
