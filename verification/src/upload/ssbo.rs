//! The storage-buffer uploader: per-primitive data lives once per drawable
//! in a shader storage buffer, and every vertex record carries only a
//! 4-byte index naming its drawable's slot there.

use vstd::prelude::*;

use crate::shader::ShaderProgram;
use crate::upload::attribute::{
    attribute_pointers, attrib_pointer_at, attrs_size, chain_attributes, VertexAttribute,
    GL_UNSIGNED_INT,
};
use crate::upload::buffer::{
    buf_after_flush, buf_after_sync, buf_flush_op, merge_dirty, new, BufferTarget, FlushOp,
    GpuBuffer, MappedWrite,
};
use crate::upload::{BindPlan, DrawCall};
use crate::GlExtensions;

verus! {

/// One vertex record of the storage-buffer layout: the vertex's own fields
/// followed by the index of its drawable's slot in the storage buffer.
#[derive(Clone, Copy, PartialEq, Eq, Structural, Debug)]
pub struct SsboVertex<V> {
    pub vertex: V,
    pub ssbo_index: u32,
}

/// The vertex records one drawable contributes: each of its vertices paired
/// with the drawable's storage-buffer slot.
pub open spec fn ssbo_vertices<V>(slot: u32, vs: Seq<V>) -> Seq<SsboVertex<V>> {
    vs.map_values(|v: V| SsboVertex { vertex: v, ssbo_index: slot })
}

/// The trailing attribute every storage-buffer vertex record ends with: one
/// unsigned 4-byte integer holding the storage slot.
pub open spec fn ssbo_index_attribute() -> VertexAttribute {
    VertexAttribute { ty: GL_UNSIGNED_INT, count: 1, ty_size: 4, is_integer: true, padding: 0 }
}

/// The plan for one whole upload step of the storage-buffer scheme: bind
/// the shader program, bind buffers and attributes, wait out fences, bind
/// the storage buffer to its shader slot, then draw.
pub struct SsboUploadPlan {
    pub program: u32,
    pub bind: BindPlan,
    pub wait_vertex: bool,
    pub wait_index: bool,
    pub wait_storage: bool,
    /// The shader binding slot the storage buffer must be bound to before
    /// the draw.
    pub storage_slot: u32,
    pub draw: DrawCall,
}

/// Uploader for the storage-buffer layout: a vertex buffer of
/// [`SsboVertex`] records, an index buffer, and a per-primitive storage
/// buffer, drawn with one shader program.
pub struct SsboUploader<D, V> {
    pub vao_exists: bool,
    pub vertex_buffer: GpuBuffer<SsboVertex<V>>,
    pub index_buffer: GpuBuffer<u32>,
    pub storage_buffer: GpuBuffer<D>,
    pub shader: ShaderProgram,
    pub gl_type: u32,
    pub vertex_attributes: Vec<VertexAttribute>,
}

impl<D, V> SsboUploader<D, V> {
    /// The full attribute list of one vertex record: the vertex's fields,
    /// then the implicit trailing storage-slot attribute.
    pub open spec fn all_attributes(&self) -> Seq<VertexAttribute> {
        self.vertex_attributes@.push(ssbo_index_attribute())
    }

    pub open spec fn wf(&self) -> bool {
        &&& self.vertex_buffer.wf()
        &&& self.index_buffer.wf()
        &&& self.storage_buffer.wf()
        &&& self.vertex_buffer.target() is VertexArray
        &&& self.index_buffer.target() is ElementArray
        &&& self.storage_buffer.target() is ShaderStorage
        &&& self.all_attributes().len() <= u32::MAX
        &&& attrs_size(self.all_attributes()) <= usize::MAX
    }

    /// No fence from an earlier flush is outstanding on any owned buffer,
    /// so writes may proceed.
    pub open spec fn ready_for_write(&self) -> bool {
        &&& self.vertex_buffer.ready_for_write()
        &&& self.index_buffer.ready_for_write()
        &&& self.storage_buffer.ready_for_write()
    }

    /// A fresh uploader: empty buffers (strategy chosen from the device's
    /// capabilities), the drawable type's shader program and vertex
    /// attribute list, and no vertex-array object yet.
    pub fn new(
        extensions: GlExtensions,
        shader: ShaderProgram,
        gl_type: u32,
        vertex_attributes: Vec<VertexAttribute>,
    ) -> (r: SsboUploader<D, V>)
        requires
            vertex_attributes@.len() + 1 <= u32::MAX,
            attrs_size(vertex_attributes@.push(ssbo_index_attribute())) <= usize::MAX,
        ensures
            !r.vao_exists,
            r.vertex_buffer.elems() == Seq::<SsboVertex<V>>::empty(),
            r.index_buffer.elems() == Seq::<u32>::empty(),
            r.storage_buffer.elems() == Seq::<D>::empty(),
            r.vertex_buffer.dirty() is None,
            r.index_buffer.dirty() is None,
            r.storage_buffer.dirty() is None,
            !r.vertex_buffer.has_device(),
            !r.index_buffer.has_device(),
            !r.storage_buffer.has_device(),
            r.vertex_buffer.capacity() == 0,
            r.index_buffer.capacity() == 0,
            r.storage_buffer.capacity() == 0,
            !r.vertex_buffer.changed(),
            !r.index_buffer.changed(),
            !r.storage_buffer.changed(),
            r.vertex_buffer.is_persistent() == extensions.arb_buffer_storage,
            r.index_buffer.is_persistent() == extensions.arb_buffer_storage,
            r.storage_buffer.is_persistent() == extensions.arb_buffer_storage,
            r.shader == shader,
            r.gl_type == gl_type,
            r.vertex_attributes == vertex_attributes,
            r.ready_for_write(),
            r.wf(),
    {
        SsboUploader {
            vao_exists: false,
            vertex_buffer: new(BufferTarget::VertexArray, extensions),
            index_buffer: new(BufferTarget::ElementArray, extensions),
            storage_buffer: new(BufferTarget::ShaderStorage, extensions),
            shader,
            gl_type,
            vertex_attributes,
        }
    }

    /// The shader program drawables of this uploader are rendered with.
    pub fn shader_program(&self) -> (r: &ShaderProgram)
        ensures
            *r == self.shader,
    {
        &self.shader
    }
}

impl<D: Copy, V: Copy> SsboUploader<D, V> {
    /// Prepare for writing: drain any fences the previous cycle left on the
    /// owned buffers. The results say which buffers the caller must block
    /// on.
    pub fn prepare_write(&mut self) -> (waited: (bool, bool, bool))
        ensures
            final(self).vertex_buffer == buf_after_sync(old(self).vertex_buffer),
            final(self).index_buffer == buf_after_sync(old(self).index_buffer),
            final(self).storage_buffer == buf_after_sync(old(self).storage_buffer),
            waited.0 == old(self).vertex_buffer.fence(),
            waited.1 == old(self).index_buffer.fence(),
            waited.2 == old(self).storage_buffer.fence(),
            final(self).ready_for_write(),
            final(self).vao_exists == old(self).vao_exists,
            final(self).shader == old(self).shader,
            final(self).gl_type == old(self).gl_type,
            final(self).vertex_attributes == old(self).vertex_attributes,
            old(self).wf() ==> final(self).wf(),
    {
        let wv = self.vertex_buffer.prepare_write();
        let wi = self.index_buffer.prepare_write();
        let ws = self.storage_buffer.prepare_write();
        (wv, wi, ws)
    }

    /// Append one drawable: its per-primitive data takes the next storage
    /// slot, its vertices are each tagged with that slot's index, and its
    /// local indices are rebased by the vertex buffer's current length.
    /// The returned ranges, if any, must be copied into the respective
    /// persistently mapped regions immediately.
    pub fn write(&mut self, drawable_data: D, vertices: &[V], indices: &[u32])
        -> (mapped: (Option<MappedWrite>, Option<MappedWrite>, Option<MappedWrite>))
        requires
            old(self).wf(),
            old(self).ready_for_write(),
            old(self).vertex_buffer.elems().len() + vertices@.len() <= u32::MAX,
            old(self).index_buffer.elems().len() + indices@.len() <= usize::MAX,
            old(self).storage_buffer.elems().len() < u32::MAX,
            forall|k: int| 0 <= k < indices@.len() ==> indices@[k] < vertices@.len(),
        ensures
            final(self).vertex_buffer.elems() == old(self).vertex_buffer.elems() + ssbo_vertices(
                old(self).storage_buffer.elems().len() as u32,
                vertices@,
            ),
            final(self).index_buffer.elems() == old(self).index_buffer.elems() + super::compat::rebase_indices(
                indices@,
                old(self).vertex_buffer.elems().len() as int,
            ),
            final(self).storage_buffer.elems() == old(self).storage_buffer.elems().push(
                drawable_data,
            ),
            final(self).vertex_buffer.dirty() == merge_dirty(
                old(self).vertex_buffer.dirty(),
                old(self).vertex_buffer.elems().len() as int,
                old(self).vertex_buffer.elems().len() + vertices@.len() as int,
            ),
            final(self).index_buffer.dirty() == merge_dirty(
                old(self).index_buffer.dirty(),
                old(self).index_buffer.elems().len() as int,
                old(self).index_buffer.elems().len() + indices@.len() as int,
            ),
            final(self).storage_buffer.dirty() == merge_dirty(
                old(self).storage_buffer.dirty(),
                old(self).storage_buffer.elems().len() as int,
                old(self).storage_buffer.elems().len() + 1 as int,
            ),
            final(self).vertex_buffer.capacity() == old(self).vertex_buffer.capacity(),
            final(self).index_buffer.capacity() == old(self).index_buffer.capacity(),
            final(self).storage_buffer.capacity() == old(self).storage_buffer.capacity(),
            final(self).vertex_buffer.has_device() == old(self).vertex_buffer.has_device(),
            final(self).index_buffer.has_device() == old(self).index_buffer.has_device(),
            final(self).storage_buffer.has_device() == old(self).storage_buffer.has_device(),
            final(self).vertex_buffer.changed() == old(self).vertex_buffer.changed(),
            final(self).index_buffer.changed() == old(self).index_buffer.changed(),
            final(self).storage_buffer.changed() == old(self).storage_buffer.changed(),
            final(self).vertex_buffer.fence() == old(self).vertex_buffer.fence(),
            final(self).index_buffer.fence() == old(self).index_buffer.fence(),
            final(self).storage_buffer.fence() == old(self).storage_buffer.fence(),
            final(self).vao_exists == old(self).vao_exists,
            final(self).shader == old(self).shader,
            final(self).gl_type == old(self).gl_type,
            final(self).vertex_attributes == old(self).vertex_attributes,
            final(self).ready_for_write(),
            final(self).wf(),
    {
        let slot = self.storage_buffer.len() as u32;
        let mut combined: Vec<SsboVertex<V>> = Vec::new();
        let mut i: usize = 0;
        while i < vertices.len()
            invariant
                i <= vertices@.len(),
                combined@.len() == i,
                forall|k: int| 0 <= k < i ==> combined@[k] == (SsboVertex {
                    vertex: vertices@[k],
                    ssbo_index: slot,
                }),
            decreases vertices@.len() - i,
        {
            combined.push(SsboVertex { vertex: vertices[i], ssbo_index: slot });
            i = i + 1;
        }
        proof {
            assert(combined@ =~= ssbo_vertices(slot, vertices@));
        }
        let vbo_index = self.vertex_buffer.len();
        let mut rebased: Vec<u32> = Vec::new();
        let mut j: usize = 0;
        while j < indices.len()
            invariant
                j <= indices@.len(),
                rebased@.len() == j,
                vbo_index + vertices@.len() <= u32::MAX,
                vbo_index == old(self).vertex_buffer.elems().len(),
                forall|k: int| 0 <= k < indices@.len() ==> indices@[k] < vertices@.len(),
                forall|k: int| 0 <= k < j ==> rebased@[k] == (indices@[k] + vbo_index) as u32,
                self == old(self),
            decreases indices@.len() - j,
        {
            rebased.push(indices[j] + vbo_index as u32);
            j = j + 1;
        }
        proof {
            assert(rebased@ =~= super::compat::rebase_indices(indices@, vbo_index as int));
        }
        let mapped_v = self.vertex_buffer.write(vbo_index, combined.as_slice());
        let ibo_index = self.index_buffer.len();
        let mapped_i = self.index_buffer.write(ibo_index, rebased.as_slice());
        let sbo_index = self.storage_buffer.len();
        let single = [drawable_data];
        let mapped_s = self.storage_buffer.write(sbo_index, single.as_slice());
        proof {
            assert(final(self).vertex_buffer.elems() =~= old(self).vertex_buffer.elems()
                + ssbo_vertices(old(self).storage_buffer.elems().len() as u32, vertices@));
            assert(final(self).index_buffer.elems() =~= old(self).index_buffer.elems()
                + super::compat::rebase_indices(
                indices@,
                old(self).vertex_buffer.elems().len() as int,
            ));
            assert(final(self).storage_buffer.elems() =~= old(self).storage_buffer.elems().push(
                drawable_data,
            ));
        }
        (mapped_v, mapped_i, mapped_s)
    }

    /// Decide the device operations bringing the three device buffers up to
    /// date with the staging state (vertex, index, then storage), clearing
    /// the dirty ranges.
    pub fn begin_flush(&mut self) -> (ops: (Option<FlushOp>, Option<FlushOp>, Option<FlushOp>))
        requires
            old(self).wf(),
        ensures
            final(self).vertex_buffer == buf_after_flush(old(self).vertex_buffer),
            final(self).index_buffer == buf_after_flush(old(self).index_buffer),
            final(self).storage_buffer == buf_after_flush(old(self).storage_buffer),
            ops.0 == buf_flush_op(old(self).vertex_buffer),
            ops.1 == buf_flush_op(old(self).index_buffer),
            ops.2 == buf_flush_op(old(self).storage_buffer),
            final(self).vao_exists == old(self).vao_exists,
            final(self).shader == old(self).shader,
            final(self).gl_type == old(self).gl_type,
            final(self).vertex_attributes == old(self).vertex_attributes,
            final(self).wf(),
    {
        let ov = self.vertex_buffer.begin_flush();
        let oi = self.index_buffer.begin_flush();
        let os = self.storage_buffer.begin_flush();
        (ov, oi, os)
    }

    /// Wait for the three buffers' flushes to complete (vertex, index, then
    /// storage); the results say which fences the caller must block on and
    /// discard.
    pub fn sync_flush(&mut self) -> (waited: (bool, bool, bool))
        ensures
            final(self).vertex_buffer == buf_after_sync(old(self).vertex_buffer),
            final(self).index_buffer == buf_after_sync(old(self).index_buffer),
            final(self).storage_buffer == buf_after_sync(old(self).storage_buffer),
            waited.0 == old(self).vertex_buffer.fence(),
            waited.1 == old(self).index_buffer.fence(),
            waited.2 == old(self).storage_buffer.fence(),
            final(self).ready_for_write(),
            final(self).vao_exists == old(self).vao_exists,
            final(self).shader == old(self).shader,
            final(self).gl_type == old(self).gl_type,
            final(self).vertex_attributes == old(self).vertex_attributes,
            old(self).wf() ==> final(self).wf(),
    {
        let wv = self.vertex_buffer.sync_flush();
        let wi = self.index_buffer.sync_flush();
        let ws = self.storage_buffer.sync_flush();
        (wv, wi, ws)
    }

    /// Decide the bind step. Nothing is to be done while any device buffer
    /// is still missing; otherwise everything is bound, the vertex-array
    /// object is created on first use, and the attribute bindings
    /// (including the trailing storage-slot attribute) are (re)configured
    /// whenever the object is new or a device buffer was recreated,
    /// clearing the recreation flags.
    pub fn bind(&mut self) -> (plan: BindPlan)
        requires
            old(self).wf(),
        ensures
            plan.proceed == (old(self).vertex_buffer.has_device()
                && old(self).index_buffer.has_device() && old(self).storage_buffer.has_device()),
            !plan.proceed ==> *final(self) == *old(self) && !plan.create_vao
                && plan.attributes is None,
            plan.proceed ==> {
                &&& plan.create_vao == !old(self).vao_exists
                &&& final(self).vao_exists
                &&& (plan.attributes is Some) == (!old(self).vao_exists
                    || old(self).vertex_buffer.changed() || old(self).index_buffer.changed()
                    || old(self).storage_buffer.changed())
                &&& plan.attributes matches Some(a) ==> {
                    &&& a@.len() == old(self).all_attributes().len()
                    &&& forall|k: int| 0 <= k < a@.len() ==> a@[k] == attrib_pointer_at(
                        old(self).all_attributes(),
                        k,
                    )
                    &&& !final(self).vertex_buffer.changed()
                    &&& !final(self).index_buffer.changed()
                    &&& !final(self).storage_buffer.changed()
                }
                &&& plan.attributes is None ==> {
                    &&& final(self).vertex_buffer == old(self).vertex_buffer
                    &&& final(self).index_buffer == old(self).index_buffer
                    &&& final(self).storage_buffer == old(self).storage_buffer
                }
                &&& final(self).vertex_buffer.elems() == old(self).vertex_buffer.elems()
                &&& final(self).index_buffer.elems() == old(self).index_buffer.elems()
                &&& final(self).storage_buffer.elems() == old(self).storage_buffer.elems()
                &&& final(self).vertex_buffer.dirty() == old(self).vertex_buffer.dirty()
                &&& final(self).index_buffer.dirty() == old(self).index_buffer.dirty()
                &&& final(self).storage_buffer.dirty() == old(self).storage_buffer.dirty()
                &&& final(self).vertex_buffer.capacity() == old(self).vertex_buffer.capacity()
                &&& final(self).index_buffer.capacity() == old(self).index_buffer.capacity()
                &&& final(self).storage_buffer.capacity() == old(
                    self,
                ).storage_buffer.capacity()
                &&& final(self).vertex_buffer.has_device() == old(
                    self,
                ).vertex_buffer.has_device()
                &&& final(self).index_buffer.has_device() == old(self).index_buffer.has_device()
                &&& final(self).storage_buffer.has_device() == old(
                    self,
                ).storage_buffer.has_device()
                &&& final(self).vertex_buffer.fence() == old(self).vertex_buffer.fence()
                &&& final(self).index_buffer.fence() == old(self).index_buffer.fence()
                &&& final(self).storage_buffer.fence() == old(self).storage_buffer.fence()
            },
            final(self).shader == old(self).shader,
            final(self).gl_type == old(self).gl_type,
            final(self).vertex_attributes == old(self).vertex_attributes,
            final(self).wf(),
    {
        if !(self.vertex_buffer.has_backing_buffer() && self.index_buffer.has_backing_buffer()
            && self.storage_buffer.has_backing_buffer()) {
            return BindPlan { proceed: false, create_vao: false, attributes: None };
        }
        let create_vao = !self.vao_exists;
        self.vao_exists = true;
        let reconfigure = create_vao || self.vertex_buffer.backing_buffer_changed()
            || self.index_buffer.backing_buffer_changed()
            || self.storage_buffer.backing_buffer_changed();
        let attributes = if reconfigure {
            let mut trailing: Vec<VertexAttribute> = Vec::new();
            trailing.push(
                VertexAttribute {
                    ty: GL_UNSIGNED_INT,
                    count: 1,
                    ty_size: 4,
                    is_integer: true,
                    padding: 0,
                },
            );
            let chained = chain_attributes(&self.vertex_attributes, &trailing);
            proof {
                assert(chained@ =~= old(self).all_attributes());
            }
            let pointers = attribute_pointers(&chained);
            self.vertex_buffer.clear_buffer_changed();
            self.index_buffer.clear_buffer_changed();
            self.storage_buffer.clear_buffer_changed();
            Some(pointers)
        } else {
            None
        };
        BindPlan { proceed: true, create_vao, attributes }
    }

    /// Decide one whole upload step: bind the shader program and the
    /// buffers, wait out any outstanding fences, bind the storage buffer to
    /// shader slot 0, then draw every accumulated index as `gl_type`
    /// primitives with unsigned-int indices.
    pub fn upload(&mut self) -> (plan: SsboUploadPlan)
        requires
            old(self).wf(),
        ensures
            plan.program == old(self).shader.program_object,
            plan.storage_slot == 0,
            plan.draw == (DrawCall {
                mode: old(self).gl_type,
                count: old(self).index_buffer.elems().len() as usize,
                index_type: GL_UNSIGNED_INT,
            }),
            plan.bind.proceed == (old(self).vertex_buffer.has_device()
                && old(self).index_buffer.has_device() && old(self).storage_buffer.has_device()),
            plan.bind.proceed ==> plan.bind.create_vao == !old(self).vao_exists,
            (plan.bind.attributes is Some) == (plan.bind.proceed && (!old(self).vao_exists
                || old(self).vertex_buffer.changed() || old(self).index_buffer.changed()
                || old(self).storage_buffer.changed())),
            plan.bind.attributes matches Some(a) ==> {
                &&& a@.len() == old(self).all_attributes().len()
                &&& forall|k: int| 0 <= k < a@.len() ==> a@[k] == attrib_pointer_at(
                    old(self).all_attributes(),
                    k,
                )
            },
            plan.wait_vertex == old(self).vertex_buffer.fence(),
            plan.wait_index == old(self).index_buffer.fence(),
            plan.wait_storage == old(self).storage_buffer.fence(),
            plan.bind.proceed ==> !final(self).vertex_buffer.changed()
                && !final(self).index_buffer.changed() && !final(self).storage_buffer.changed()
                && final(self).vao_exists,
            !plan.bind.proceed ==> final(self).vertex_buffer.changed() == old(
                self,
            ).vertex_buffer.changed() && final(self).index_buffer.changed() == old(
                self,
            ).index_buffer.changed() && final(self).storage_buffer.changed() == old(
                self,
            ).storage_buffer.changed() && final(self).vao_exists == old(self).vao_exists,
            final(self).ready_for_write(),
            final(self).vertex_buffer.elems() == old(self).vertex_buffer.elems(),
            final(self).index_buffer.elems() == old(self).index_buffer.elems(),
            final(self).storage_buffer.elems() == old(self).storage_buffer.elems(),
            final(self).vertex_buffer.dirty() == old(self).vertex_buffer.dirty(),
            final(self).index_buffer.dirty() == old(self).index_buffer.dirty(),
            final(self).storage_buffer.dirty() == old(self).storage_buffer.dirty(),
            final(self).vertex_buffer.capacity() == old(self).vertex_buffer.capacity(),
            final(self).index_buffer.capacity() == old(self).index_buffer.capacity(),
            final(self).storage_buffer.capacity() == old(self).storage_buffer.capacity(),
            final(self).vertex_buffer.has_device() == old(self).vertex_buffer.has_device(),
            final(self).index_buffer.has_device() == old(self).index_buffer.has_device(),
            final(self).storage_buffer.has_device() == old(self).storage_buffer.has_device(),
            final(self).shader == old(self).shader,
            final(self).gl_type == old(self).gl_type,
            final(self).vertex_attributes == old(self).vertex_attributes,
            final(self).wf(),
    {
        let program = self.shader.program_object;
        let bind = self.bind();
        let waited = self.sync_flush();
        let count = self.index_buffer.len();
        let plan = SsboUploadPlan {
            program,
            bind,
            wait_vertex: waited.0,
            wait_index: waited.1,
            wait_storage: waited.2,
            storage_slot: 0,
            draw: DrawCall { mode: self.gl_type, count, index_type: GL_UNSIGNED_INT },
        };
        self.finish_use();
        plan
    }

    /// Post-draw cleanup: declared, but no additional synchronization is
    /// performed here — the next cycle's `prepare_write` is the only
    /// guaranteed synchronization point after a draw.
    pub fn finish_use(&mut self)
        ensures
            *final(self) == *old(self),
    {
    }

    /// Reset the three staging lengths to zero; the next writes append from
    /// the start again, while the device allocations keep their stale
    /// contents until a flush overwrites or replaces them.
    pub fn clear(&mut self)
        requires
            old(self).wf(),
        ensures
            final(self).vertex_buffer.elems() == Seq::<SsboVertex<V>>::empty(),
            final(self).index_buffer.elems() == Seq::<u32>::empty(),
            final(self).storage_buffer.elems() == Seq::<D>::empty(),
            final(self).vertex_buffer.dirty() is None,
            final(self).index_buffer.dirty() is None,
            final(self).storage_buffer.dirty() is None,
            final(self).vertex_buffer.capacity() == old(self).vertex_buffer.capacity(),
            final(self).index_buffer.capacity() == old(self).index_buffer.capacity(),
            final(self).storage_buffer.capacity() == old(self).storage_buffer.capacity(),
            final(self).vertex_buffer.has_device() == old(self).vertex_buffer.has_device(),
            final(self).index_buffer.has_device() == old(self).index_buffer.has_device(),
            final(self).storage_buffer.has_device() == old(self).storage_buffer.has_device(),
            final(self).vertex_buffer.fence() == old(self).vertex_buffer.fence(),
            final(self).index_buffer.fence() == old(self).index_buffer.fence(),
            final(self).storage_buffer.fence() == old(self).storage_buffer.fence(),
            final(self).vao_exists == old(self).vao_exists,
            final(self).shader == old(self).shader,
            final(self).gl_type == old(self).gl_type,
            final(self).vertex_attributes == old(self).vertex_attributes,
            final(self).wf(),
    {
        self.vertex_buffer.clear();
        self.index_buffer.clear();
        self.storage_buffer.clear();
    }
}

/// Storage-slot numbering: the `n`-th drawable written since the last clear
/// tags each of its vertices with storage slot `n`, the position its
/// per-primitive data takes in the storage buffer (0, 1, 2, ...).
pub proof fn lemma_ssbo_slots<V>(slot: u32, vs: Seq<V>)
    ensures
        forall|k: int| 0 <= k < vs.len() ==> ssbo_vertices(slot, vs)[k].ssbo_index == slot,
        forall|k: int| 0 <= k < vs.len() ==> ssbo_vertices(slot, vs)[k].vertex == vs[k],
{
}

} // verus!
