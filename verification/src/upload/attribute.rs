//! Vertex-attribute metadata and the stride/offset computation used to
//! configure the device's attribute bindings.

use vstd::prelude::*;

verus! {

/// `GL_UNSIGNED_INT`
pub const GL_UNSIGNED_INT: u32 = 0x1405;

/// Metadata describing one vertex input field: its component type tag, how
/// many components it has, the byte size of one component, whether the
/// shader reads it as an integer, and any padding bytes preceding it in the
/// record.
#[derive(Clone, Copy, PartialEq, Eq, Structural, Debug)]
pub struct VertexAttribute {
    pub ty: u32,
    pub count: usize,
    pub ty_size: usize,
    pub is_integer: bool,
    pub padding: usize,
}

impl VertexAttribute {
    /// An attribute with no leading padding.
    pub fn new(ty: u32, count: usize, ty_size: usize, is_integer: bool) -> (r: VertexAttribute)
        ensures
            r == (VertexAttribute { ty, count, ty_size, is_integer, padding: 0 }),
    {
        VertexAttribute { ty, count, ty_size, is_integer, padding: 0 }
    }
}

/// Bytes one attribute occupies in a vertex record, leading padding included.
pub open spec fn attr_size(a: VertexAttribute) -> int {
    a.padding + a.count * a.ty_size
}

/// Total bytes of an attribute list laid end to end: the stride of the
/// resulting vertex records.
pub open spec fn attrs_size(attrs: Seq<VertexAttribute>) -> int
    decreases attrs.len(),
{
    if attrs.len() == 0 {
        0
    } else {
        attrs_size(attrs.drop_last()) + attr_size(attrs.last())
    }
}

pub proof fn lemma_attrs_size_nonneg(attrs: Seq<VertexAttribute>)
    ensures
        attrs_size(attrs) >= 0,
    decreases attrs.len(),
{
    if attrs.len() > 0 {
        lemma_attrs_size_nonneg(attrs.drop_last());
    }
}

pub proof fn lemma_attrs_size_take_succ(attrs: Seq<VertexAttribute>, i: int)
    requires
        0 <= i < attrs.len(),
    ensures
        attrs_size(attrs.take(i + 1)) == attrs_size(attrs.take(i)) + attr_size(attrs[i]),
{
    assert(attrs.take(i + 1).drop_last() =~= attrs.take(i));
    assert(attrs.take(i + 1).last() == attrs[i]);
}

pub proof fn lemma_attrs_size_take_le(attrs: Seq<VertexAttribute>, i: int)
    requires
        0 <= i <= attrs.len(),
    ensures
        attrs_size(attrs.take(i)) <= attrs_size(attrs),
    decreases attrs.len() - i,
{
    if i == attrs.len() {
        assert(attrs.take(i) =~= attrs);
    } else {
        lemma_attrs_size_take_succ(attrs, i);
        lemma_attrs_size_take_le(attrs, i + 1);
    }
}

/// One configured attribute binding: which attribute slot, what to read
/// there, and where it sits within each vertex record.
#[derive(Clone, Copy, PartialEq, Eq, Structural, Debug)]
pub struct AttribPointer {
    pub index: u32,
    pub count: usize,
    pub ty: u32,
    pub is_integer: bool,
    pub stride: usize,
    pub offset: usize,
}

/// The binding the device must be given for attribute `i` of the list: the
/// stride is the whole list's size, the offset the running size of the
/// preceding attributes plus this one's own padding.
pub open spec fn attrib_pointer_at(attrs: Seq<VertexAttribute>, i: int) -> AttribPointer {
    AttribPointer {
        index: i as u32,
        count: attrs[i].count,
        ty: attrs[i].ty,
        is_integer: attrs[i].is_integer,
        stride: attrs_size(attrs) as usize,
        offset: (attrs_size(attrs.take(i)) + attrs[i].padding) as usize,
    }
}

/// Concatenate two attribute lists (vertex fields first, then the fields
/// appended by the chosen buffer combination).
pub fn chain_attributes(a: &Vec<VertexAttribute>, b: &Vec<VertexAttribute>)
    -> (r: Vec<VertexAttribute>)
    ensures
        r@ == a@ + b@,
{
    let mut r: Vec<VertexAttribute> = Vec::new();
    let mut i: usize = 0;
    while i < a.len()
        invariant
            i <= a@.len(),
            r@ == a@.take(i as int),
        decreases a@.len() - i,
    {
        r.push(a[i]);
        proof {
            assert(a@.take(i + 1 as int) =~= a@.take(i as int).push(a@[i as int]));
        }
        i = i + 1;
    }
    proof {
        assert(a@.take(a@.len() as int) =~= a@);
    }
    let mut j: usize = 0;
    while j < b.len()
        invariant
            j <= b@.len(),
            r@ == a@ + b@.take(j as int),
        decreases b@.len() - j,
    {
        r.push(b[j]);
        proof {
            assert(a@ + b@.take(j + 1 as int) =~= (a@ + b@.take(j as int)).push(b@[j as int]));
        }
        j = j + 1;
    }
    proof {
        assert(a@ + b@.take(b@.len() as int) =~= a@ + b@);
    }
    r
}

/// Compute every attribute binding for a full attribute list.
///
/// The stride is the sum of all attributes' padded sizes; each attribute's
/// offset is the running sum of its predecessors' sizes plus its own leading
/// padding.
pub fn attribute_pointers(attrs: &Vec<VertexAttribute>) -> (r: Vec<AttribPointer>)
    requires
        attrs@.len() <= u32::MAX,
        attrs_size(attrs@) <= usize::MAX,
    ensures
        r@.len() == attrs@.len(),
        forall|i: int| 0 <= i < attrs@.len() ==> r@[i] == attrib_pointer_at(attrs@, i),
{
    let mut stride: usize = 0;
    let mut i: usize = 0;
    while i < attrs.len()
        invariant
            i <= attrs@.len(),
            attrs_size(attrs@) <= usize::MAX,
            stride == attrs_size(attrs@.take(i as int)),
        decreases attrs@.len() - i,
    {
        let a = attrs[i];
        proof {
            lemma_attrs_size_take_succ(attrs@, i as int);
            lemma_attrs_size_take_le(attrs@, i + 1 as int);
            lemma_attrs_size_nonneg(attrs@.take(i as int));
        }
        stride = stride + a.padding + a.count * a.ty_size;
        i = i + 1;
    }
    proof {
        assert(attrs@.take(attrs@.len() as int) =~= attrs@);
    }
    let mut r: Vec<AttribPointer> = Vec::new();
    let mut offset_cum: usize = 0;
    let mut j: usize = 0;
    while j < attrs.len()
        invariant
            j <= attrs@.len(),
            attrs@.len() <= u32::MAX,
            attrs_size(attrs@) <= usize::MAX,
            stride == attrs_size(attrs@),
            offset_cum == attrs_size(attrs@.take(j as int)),
            r@.len() == j,
            forall|k: int| 0 <= k < j ==> r@[k] == attrib_pointer_at(attrs@, k),
        decreases attrs@.len() - j,
    {
        let a = attrs[j];
        proof {
            lemma_attrs_size_take_succ(attrs@, j as int);
            lemma_attrs_size_take_le(attrs@, j + 1 as int);
            lemma_attrs_size_nonneg(attrs@.take(j as int));
        }
        let offset = offset_cum + a.padding;
        r.push(AttribPointer {
            index: j as u32,
            count: a.count,
            ty: a.ty,
            is_integer: a.is_integer,
            stride,
            offset,
        });
        offset_cum = offset + a.count * a.ty_size;
        j = j + 1;
    }
    r
}

} // verus!
