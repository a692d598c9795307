//! The interleaved ("compat") uploader: every vertex record carries a full
//! copy of its drawable's per-primitive data, so the vertex buffer alone
//! feeds the shader and the scheme works on any device.

use vstd::prelude::*;

use crate::shader::ShaderProgram;
use crate::upload::attribute::{
    attribute_pointers, attrib_pointer_at, attrs_size, chain_attributes, VertexAttribute,
    GL_UNSIGNED_INT,
};
use crate::upload::buffer::{
    buf_after_flush, buf_after_sync, buf_flush_op, merge_dirty, new, BufferTarget, FlushOp,
    GpuBuffer, MappedWrite,
};
use crate::upload::{BindPlan, DrawCall};
use crate::GlExtensions;

verus! {

/// One vertex record of the interleaved layout: the vertex's own fields
/// followed by a copy of its drawable's per-primitive data.
#[derive(Clone, Copy, PartialEq, Eq, Structural, Debug)]
pub struct CompatVertex<D, V> {
    pub vertex: V,
    pub drawable_data: D,
}

/// The vertex records one drawable contributes: each of its vertices paired
/// with a copy of its per-primitive data.
pub open spec fn compat_vertices<D, V>(data: D, vs: Seq<V>) -> Seq<CompatVertex<D, V>> {
    vs.map_values(|v: V| CompatVertex { vertex: v, drawable_data: data })
}

/// A drawable's local indices rebased into the shared vertex buffer.
pub open spec fn rebase_indices(is: Seq<u32>, base: int) -> Seq<u32> {
    is.map_values(|i: u32| (i + base) as u32)
}

/// The plan for one whole upload step: bind the shader program, bind
/// buffers and attributes, wait out any fences, then issue the draw call.
pub struct UploadPlan {
    pub program: u32,
    pub bind: BindPlan,
    pub wait_vertex: bool,
    pub wait_index: bool,
    pub draw: DrawCall,
}

/// Uploader for the interleaved layout: a vertex buffer of
/// [`CompatVertex`] records and an index buffer, drawn with one shader
/// program.
pub struct CompatUploader<D, V> {
    pub vao_exists: bool,
    pub vertex_buffer: GpuBuffer<CompatVertex<D, V>>,
    pub index_buffer: GpuBuffer<u32>,
    pub shader: ShaderProgram,
    pub gl_type: u32,
    pub vertex_attributes: Vec<VertexAttribute>,
    pub drawable_attributes: Vec<VertexAttribute>,
}

impl<D, V> CompatUploader<D, V> {
    /// The full attribute list of one vertex record: the vertex's fields,
    /// then the per-primitive fields interleaved after them.
    pub open spec fn all_attributes(&self) -> Seq<VertexAttribute> {
        self.vertex_attributes@ + self.drawable_attributes@
    }

    pub open spec fn wf(&self) -> bool {
        &&& self.vertex_buffer.wf()
        &&& self.index_buffer.wf()
        &&& self.vertex_buffer.target() is VertexArray
        &&& self.index_buffer.target() is ElementArray
        &&& self.all_attributes().len() <= u32::MAX
        &&& attrs_size(self.all_attributes()) <= usize::MAX
    }

    /// No fence from an earlier flush is outstanding on any owned buffer,
    /// so writes may proceed.
    pub open spec fn ready_for_write(&self) -> bool {
        &&& self.vertex_buffer.ready_for_write()
        &&& self.index_buffer.ready_for_write()
    }

    /// A fresh uploader: empty buffers (strategy chosen from the device's
    /// capabilities), the drawable type's shader program and attribute
    /// lists, and no vertex-array object yet.
    pub fn new(
        extensions: GlExtensions,
        shader: ShaderProgram,
        gl_type: u32,
        vertex_attributes: Vec<VertexAttribute>,
        drawable_attributes: Vec<VertexAttribute>,
    ) -> (r: CompatUploader<D, V>)
        requires
            vertex_attributes@.len() + drawable_attributes@.len() <= u32::MAX,
            attrs_size(vertex_attributes@ + drawable_attributes@) <= usize::MAX,
        ensures
            !r.vao_exists,
            r.vertex_buffer.elems() == Seq::<CompatVertex<D, V>>::empty(),
            r.index_buffer.elems() == Seq::<u32>::empty(),
            r.vertex_buffer.dirty() is None,
            r.index_buffer.dirty() is None,
            !r.vertex_buffer.has_device(),
            !r.index_buffer.has_device(),
            r.vertex_buffer.capacity() == 0,
            r.index_buffer.capacity() == 0,
            !r.vertex_buffer.changed(),
            !r.index_buffer.changed(),
            r.vertex_buffer.is_persistent() == extensions.arb_buffer_storage,
            r.index_buffer.is_persistent() == extensions.arb_buffer_storage,
            r.shader == shader,
            r.gl_type == gl_type,
            r.vertex_attributes == vertex_attributes,
            r.drawable_attributes == drawable_attributes,
            r.ready_for_write(),
            r.wf(),
    {
        CompatUploader {
            vao_exists: false,
            vertex_buffer: new(BufferTarget::VertexArray, extensions),
            index_buffer: new(BufferTarget::ElementArray, extensions),
            shader,
            gl_type,
            vertex_attributes,
            drawable_attributes,
        }
    }

    /// The shader program drawables of this uploader are rendered with.
    pub fn shader_program(&self) -> (r: &ShaderProgram)
        ensures
            *r == self.shader,
    {
        &self.shader
    }
}

impl<D: Copy, V: Copy> CompatUploader<D, V> {
    /// Prepare for writing: drain any fences the previous cycle left on the
    /// owned buffers. The results say which buffers the caller must block
    /// on.
    pub fn prepare_write(&mut self) -> (waited: (bool, bool))
        ensures
            final(self).vertex_buffer == buf_after_sync(old(self).vertex_buffer),
            final(self).index_buffer == buf_after_sync(old(self).index_buffer),
            waited.0 == old(self).vertex_buffer.fence(),
            waited.1 == old(self).index_buffer.fence(),
            final(self).ready_for_write(),
            final(self).vao_exists == old(self).vao_exists,
            final(self).shader == old(self).shader,
            final(self).gl_type == old(self).gl_type,
            final(self).vertex_attributes == old(self).vertex_attributes,
            final(self).drawable_attributes == old(self).drawable_attributes,
            old(self).wf() ==> final(self).wf(),
    {
        let wv = self.vertex_buffer.prepare_write();
        let wi = self.index_buffer.prepare_write();
        (wv, wi)
    }

    /// Append one drawable: its vertices each interleaved with a copy of
    /// `drawable_data`, and its local indices rebased by the vertex
    /// buffer's current length. The returned ranges, if any, must be copied
    /// into the respective persistently mapped regions immediately.
    pub fn write(&mut self, drawable_data: D, vertices: &[V], indices: &[u32])
        -> (mapped: (Option<MappedWrite>, Option<MappedWrite>))
        requires
            old(self).wf(),
            old(self).ready_for_write(),
            old(self).vertex_buffer.elems().len() + vertices@.len() <= u32::MAX,
            old(self).index_buffer.elems().len() + indices@.len() <= usize::MAX,
            forall|k: int| 0 <= k < indices@.len() ==> indices@[k] < vertices@.len(),
        ensures
            final(self).vertex_buffer.elems() == old(self).vertex_buffer.elems()
                + compat_vertices(drawable_data, vertices@),
            final(self).index_buffer.elems() == old(self).index_buffer.elems()
                + rebase_indices(indices@, old(self).vertex_buffer.elems().len() as int),
            final(self).vertex_buffer.dirty() == merge_dirty(
                old(self).vertex_buffer.dirty(),
                old(self).vertex_buffer.elems().len() as int,
                old(self).vertex_buffer.elems().len() + vertices@.len() as int,
            ),
            final(self).index_buffer.dirty() == merge_dirty(
                old(self).index_buffer.dirty(),
                old(self).index_buffer.elems().len() as int,
                old(self).index_buffer.elems().len() + indices@.len() as int,
            ),
            final(self).vertex_buffer.capacity() == old(self).vertex_buffer.capacity(),
            final(self).index_buffer.capacity() == old(self).index_buffer.capacity(),
            final(self).vertex_buffer.has_device() == old(self).vertex_buffer.has_device(),
            final(self).index_buffer.has_device() == old(self).index_buffer.has_device(),
            final(self).vertex_buffer.changed() == old(self).vertex_buffer.changed(),
            final(self).index_buffer.changed() == old(self).index_buffer.changed(),
            final(self).vertex_buffer.fence() == old(self).vertex_buffer.fence(),
            final(self).index_buffer.fence() == old(self).index_buffer.fence(),
            final(self).vao_exists == old(self).vao_exists,
            final(self).shader == old(self).shader,
            final(self).gl_type == old(self).gl_type,
            final(self).vertex_attributes == old(self).vertex_attributes,
            final(self).drawable_attributes == old(self).drawable_attributes,
            mapped.0 == if old(self).vertex_buffer.is_persistent()
                && old(self).vertex_buffer.has_device() && old(self).vertex_buffer.elems().len()
                + vertices@.len() <= old(self).vertex_buffer.capacity() {
                Some(
                    MappedWrite {
                        start: old(self).vertex_buffer.elems().len() as usize,
                        end: (old(self).vertex_buffer.elems().len() + vertices@.len()) as usize,
                    },
                )
            } else {
                Option::<MappedWrite>::None
            },
            mapped.1 == if old(self).index_buffer.is_persistent()
                && old(self).index_buffer.has_device() && old(self).index_buffer.elems().len()
                + indices@.len() <= old(self).index_buffer.capacity() {
                Some(
                    MappedWrite {
                        start: old(self).index_buffer.elems().len() as usize,
                        end: (old(self).index_buffer.elems().len() + indices@.len()) as usize,
                    },
                )
            } else {
                Option::<MappedWrite>::None
            },
            final(self).ready_for_write(),
            final(self).wf(),
    {
        let mut combined: Vec<CompatVertex<D, V>> = Vec::new();
        let mut i: usize = 0;
        while i < vertices.len()
            invariant
                i <= vertices@.len(),
                combined@.len() == i,
                forall|k: int| 0 <= k < i ==> combined@[k] == (CompatVertex {
                    vertex: vertices@[k],
                    drawable_data: drawable_data,
                }),
            decreases vertices@.len() - i,
        {
            combined.push(CompatVertex { vertex: vertices[i], drawable_data });
            i = i + 1;
        }
        proof {
            assert(combined@ =~= compat_vertices(drawable_data, vertices@));
        }
        let vbo_index = self.vertex_buffer.len();
        let mut rebased: Vec<u32> = Vec::new();
        let mut j: usize = 0;
        while j < indices.len()
            invariant
                j <= indices@.len(),
                rebased@.len() == j,
                vbo_index + vertices@.len() <= u32::MAX,
                vbo_index == old(self).vertex_buffer.elems().len(),
                forall|k: int| 0 <= k < indices@.len() ==> indices@[k] < vertices@.len(),
                forall|k: int| 0 <= k < j ==> rebased@[k] == (indices@[k] + vbo_index) as u32,
                self == old(self),
            decreases indices@.len() - j,
        {
            rebased.push(indices[j] + vbo_index as u32);
            j = j + 1;
        }
        proof {
            assert(rebased@ =~= rebase_indices(indices@, vbo_index as int));
        }
        let mapped_v = self.vertex_buffer.write(vbo_index, combined.as_slice());
        let ibo_index = self.index_buffer.len();
        let mapped_i = self.index_buffer.write(ibo_index, rebased.as_slice());
        proof {
            assert(final(self).vertex_buffer.elems() =~= old(self).vertex_buffer.elems()
                + compat_vertices(drawable_data, vertices@));
            assert(final(self).index_buffer.elems() =~= old(self).index_buffer.elems()
                + rebase_indices(indices@, old(self).vertex_buffer.elems().len() as int));
        }
        (mapped_v, mapped_i)
    }

    /// Decide the device operations bringing both device buffers up to date
    /// with the staging state (vertex buffer first), clearing the dirty
    /// ranges.
    pub fn begin_flush(&mut self) -> (ops: (Option<FlushOp>, Option<FlushOp>))
        requires
            old(self).wf(),
        ensures
            final(self).vertex_buffer == buf_after_flush(old(self).vertex_buffer),
            final(self).index_buffer == buf_after_flush(old(self).index_buffer),
            ops.0 == buf_flush_op(old(self).vertex_buffer),
            ops.1 == buf_flush_op(old(self).index_buffer),
            final(self).vao_exists == old(self).vao_exists,
            final(self).shader == old(self).shader,
            final(self).gl_type == old(self).gl_type,
            final(self).vertex_attributes == old(self).vertex_attributes,
            final(self).drawable_attributes == old(self).drawable_attributes,
            final(self).wf(),
    {
        let ov = self.vertex_buffer.begin_flush();
        let oi = self.index_buffer.begin_flush();
        (ov, oi)
    }

    /// Wait for both buffers' flushes to complete (vertex buffer first);
    /// the results say which fences the caller must block on and discard.
    pub fn sync_flush(&mut self) -> (waited: (bool, bool))
        ensures
            final(self).vertex_buffer == buf_after_sync(old(self).vertex_buffer),
            final(self).index_buffer == buf_after_sync(old(self).index_buffer),
            waited.0 == old(self).vertex_buffer.fence(),
            waited.1 == old(self).index_buffer.fence(),
            final(self).ready_for_write(),
            final(self).vao_exists == old(self).vao_exists,
            final(self).shader == old(self).shader,
            final(self).gl_type == old(self).gl_type,
            final(self).vertex_attributes == old(self).vertex_attributes,
            final(self).drawable_attributes == old(self).drawable_attributes,
            old(self).wf() ==> final(self).wf(),
    {
        let wv = self.vertex_buffer.sync_flush();
        let wi = self.index_buffer.sync_flush();
        (wv, wi)
    }

    /// Decide the bind step. Nothing is to be done while either device
    /// buffer is still missing; otherwise everything is bound, the
    /// vertex-array object is created on first use, and the attribute
    /// bindings are (re)configured whenever the object is new or a device
    /// buffer was recreated, clearing the recreation flags.
    pub fn bind(&mut self) -> (plan: BindPlan)
        requires
            old(self).wf(),
        ensures
            plan.proceed == (old(self).vertex_buffer.has_device()
                && old(self).index_buffer.has_device()),
            !plan.proceed ==> *final(self) == *old(self) && !plan.create_vao
                && plan.attributes is None,
            plan.proceed ==> {
                &&& plan.create_vao == !old(self).vao_exists
                &&& final(self).vao_exists
                &&& (plan.attributes is Some) == (!old(self).vao_exists
                    || old(self).vertex_buffer.changed() || old(self).index_buffer.changed())
                &&& plan.attributes matches Some(a) ==> {
                    &&& a@.len() == old(self).all_attributes().len()
                    &&& forall|k: int| 0 <= k < a@.len() ==> a@[k] == attrib_pointer_at(
                        old(self).all_attributes(),
                        k,
                    )
                    &&& !final(self).vertex_buffer.changed()
                    &&& !final(self).index_buffer.changed()
                }
                &&& plan.attributes is None ==> final(self).vertex_buffer == old(
                    self,
                ).vertex_buffer && final(self).index_buffer == old(self).index_buffer
                &&& final(self).vertex_buffer.elems() == old(self).vertex_buffer.elems()
                &&& final(self).index_buffer.elems() == old(self).index_buffer.elems()
                &&& final(self).vertex_buffer.dirty() == old(self).vertex_buffer.dirty()
                &&& final(self).index_buffer.dirty() == old(self).index_buffer.dirty()
                &&& final(self).vertex_buffer.capacity() == old(self).vertex_buffer.capacity()
                &&& final(self).index_buffer.capacity() == old(self).index_buffer.capacity()
                &&& final(self).vertex_buffer.has_device() == old(
                    self,
                ).vertex_buffer.has_device()
                &&& final(self).index_buffer.has_device() == old(self).index_buffer.has_device()
                &&& final(self).vertex_buffer.fence() == old(self).vertex_buffer.fence()
                &&& final(self).index_buffer.fence() == old(self).index_buffer.fence()
            },
            final(self).shader == old(self).shader,
            final(self).gl_type == old(self).gl_type,
            final(self).vertex_attributes == old(self).vertex_attributes,
            final(self).drawable_attributes == old(self).drawable_attributes,
            final(self).wf(),
    {
        if !(self.vertex_buffer.has_backing_buffer() && self.index_buffer.has_backing_buffer()) {
            return BindPlan { proceed: false, create_vao: false, attributes: None };
        }
        let create_vao = !self.vao_exists;
        self.vao_exists = true;
        let reconfigure = create_vao || self.vertex_buffer.backing_buffer_changed()
            || self.index_buffer.backing_buffer_changed();
        let attributes = if reconfigure {
            let chained = chain_attributes(&self.vertex_attributes, &self.drawable_attributes);
            let pointers = attribute_pointers(&chained);
            self.vertex_buffer.clear_buffer_changed();
            self.index_buffer.clear_buffer_changed();
            Some(pointers)
        } else {
            None
        };
        BindPlan { proceed: true, create_vao, attributes }
    }

    /// Decide one whole upload step: bind the shader program and the
    /// buffers, wait out any outstanding fences, then draw every
    /// accumulated index as `gl_type` primitives with unsigned-int indices.
    pub fn upload(&mut self) -> (plan: UploadPlan)
        requires
            old(self).wf(),
        ensures
            plan.program == old(self).shader.program_object,
            plan.draw == (DrawCall {
                mode: old(self).gl_type,
                count: old(self).index_buffer.elems().len() as usize,
                index_type: GL_UNSIGNED_INT,
            }),
            plan.bind.proceed == (old(self).vertex_buffer.has_device()
                && old(self).index_buffer.has_device()),
            plan.bind.proceed ==> plan.bind.create_vao == !old(self).vao_exists,
            (plan.bind.attributes is Some) == (plan.bind.proceed && (!old(self).vao_exists
                || old(self).vertex_buffer.changed() || old(self).index_buffer.changed())),
            plan.bind.attributes matches Some(a) ==> {
                &&& a@.len() == old(self).all_attributes().len()
                &&& forall|k: int| 0 <= k < a@.len() ==> a@[k] == attrib_pointer_at(
                    old(self).all_attributes(),
                    k,
                )
            },
            plan.wait_vertex == old(self).vertex_buffer.fence(),
            plan.wait_index == old(self).index_buffer.fence(),
            plan.bind.proceed ==> !final(self).vertex_buffer.changed()
                && !final(self).index_buffer.changed() && final(self).vao_exists,
            !plan.bind.proceed ==> final(self).vertex_buffer.changed() == old(
                self,
            ).vertex_buffer.changed() && final(self).index_buffer.changed() == old(
                self,
            ).index_buffer.changed() && final(self).vao_exists == old(self).vao_exists,
            final(self).ready_for_write(),
            final(self).vertex_buffer.elems() == old(self).vertex_buffer.elems(),
            final(self).index_buffer.elems() == old(self).index_buffer.elems(),
            final(self).vertex_buffer.dirty() == old(self).vertex_buffer.dirty(),
            final(self).index_buffer.dirty() == old(self).index_buffer.dirty(),
            final(self).vertex_buffer.capacity() == old(self).vertex_buffer.capacity(),
            final(self).index_buffer.capacity() == old(self).index_buffer.capacity(),
            final(self).vertex_buffer.has_device() == old(self).vertex_buffer.has_device(),
            final(self).index_buffer.has_device() == old(self).index_buffer.has_device(),
            final(self).shader == old(self).shader,
            final(self).gl_type == old(self).gl_type,
            final(self).vertex_attributes == old(self).vertex_attributes,
            final(self).drawable_attributes == old(self).drawable_attributes,
            final(self).wf(),
    {
        let program = self.shader.program_object;
        let bind = self.bind();
        let waited = self.sync_flush();
        let count = self.index_buffer.len();
        let plan = UploadPlan {
            program,
            bind,
            wait_vertex: waited.0,
            wait_index: waited.1,
            draw: DrawCall { mode: self.gl_type, count, index_type: GL_UNSIGNED_INT },
        };
        self.finish_use();
        plan
    }

    /// Post-draw cleanup: declared, but no additional synchronization is
    /// performed here — the next cycle's `prepare_write` is the only
    /// guaranteed synchronization point after a draw.
    pub fn finish_use(&mut self)
        ensures
            *final(self) == *old(self),
    {
    }

    /// Reset both staging lengths to zero; the next writes append from the
    /// start again, while the device allocations keep their stale contents
    /// until a flush overwrites or replaces them.
    pub fn clear(&mut self)
        requires
            old(self).wf(),
        ensures
            final(self).vertex_buffer.elems() == Seq::<CompatVertex<D, V>>::empty(),
            final(self).index_buffer.elems() == Seq::<u32>::empty(),
            final(self).vertex_buffer.dirty() is None,
            final(self).index_buffer.dirty() is None,
            final(self).vertex_buffer.capacity() == old(self).vertex_buffer.capacity(),
            final(self).index_buffer.capacity() == old(self).index_buffer.capacity(),
            final(self).vertex_buffer.has_device() == old(self).vertex_buffer.has_device(),
            final(self).index_buffer.has_device() == old(self).index_buffer.has_device(),
            final(self).vertex_buffer.changed() == old(self).vertex_buffer.changed(),
            final(self).index_buffer.changed() == old(self).index_buffer.changed(),
            final(self).vertex_buffer.fence() == old(self).vertex_buffer.fence(),
            final(self).index_buffer.fence() == old(self).index_buffer.fence(),
            final(self).vao_exists == old(self).vao_exists,
            final(self).shader == old(self).shader,
            final(self).gl_type == old(self).gl_type,
            final(self).vertex_attributes == old(self).vertex_attributes,
            final(self).drawable_attributes == old(self).drawable_attributes,
            final(self).wf(),
    {
        self.vertex_buffer.clear();
        self.index_buffer.clear();
    }
}

/// Append/rebase correctness: writing drawable A and then drawable B on an
/// empty uploader leaves the index buffer holding A's indices followed by
/// B's local indices shifted by exactly A's vertex count.
pub proof fn lemma_append_rebase(is_a: Seq<u32>, vs_a_len: int, is_b: Seq<u32>)
    requires
        0 <= vs_a_len,
        forall|k: int| 0 <= k < is_b.len() ==> is_b[k] + vs_a_len <= u32::MAX,
    ensures
        forall|k: int| 0 <= k < is_a.len() ==> (rebase_indices(is_a, 0) + rebase_indices(
            is_b,
            vs_a_len,
        ))[k] == is_a[k],
        forall|k: int| 0 <= k < is_b.len() ==> (rebase_indices(is_a, 0) + rebase_indices(
            is_b,
            vs_a_len,
        ))[is_a.len() + k] == is_b[k] + vs_a_len,
{
    assert forall|k: int| 0 <= k < is_a.len() implies (rebase_indices(is_a, 0) + rebase_indices(
        is_b,
        vs_a_len,
    ))[k] == is_a[k] by {
        assert(rebase_indices(is_a, 0)[k] == (is_a[k] + 0) as u32);
    }
    assert forall|k: int| 0 <= k < is_b.len() implies (rebase_indices(is_a, 0) + rebase_indices(
        is_b,
        vs_a_len,
    ))[is_a.len() + k] == is_b[k] + vs_a_len by {
        assert(rebase_indices(is_b, vs_a_len)[k] == (is_b[k] + vs_a_len) as u32);
    }
}

} // verus!
