//! The GPU buffer upload and synchronization layer.
//!
//! An uploader owns a vertex buffer, an index buffer and (for the
//! storage-buffer variant) a per-primitive data buffer, translates drawable
//! geometry into packed element streams, and walks the
//! write → flush → bind → draw cycle. The device operations each step
//! requires are returned as plain plan values for the context-owning layer
//! to carry out.

use vstd::prelude::*;

pub mod attribute;
pub mod buffer;
pub mod compat;
pub mod ssbo;

use attribute::{
    attribute_pointers, attrib_pointer_at, attrs_size, AttribPointer, VertexAttribute,
    GL_UNSIGNED_INT,
};
use buffer::{
    buf_after_flush, buf_after_sync, buf_flush_op, merge_dirty, new, write_elems, BufferTarget,
    FlushOp, GpuBuffer, MappedWrite,
};
use crate::GlExtensions;

verus! {

/// `GL_TRIANGLES`
pub const GL_TRIANGLES: u32 = 0x0004;

/// The indexed draw call ending an upload cycle: primitive mode, how many
/// indices to draw, and their component type.
#[derive(Clone, Copy, PartialEq, Eq, Structural, Debug)]
pub struct DrawCall {
    pub mode: u32,
    pub count: usize,
    pub index_type: u32,
}

/// What a bind step must do: nothing when some owned buffer still lacks its
/// device allocation; otherwise bind everything, creating the
/// vertex-array object first if it does not exist yet, and reconfigure the
/// attribute bindings when they are listed.
pub struct BindPlan {
    pub proceed: bool,
    pub create_vao: bool,
    pub attributes: Option<Vec<AttribPointer>>,
}

/// The plan for one whole upload step of the legacy uploader: bind, wait
/// out fences, then issue the draw call.
pub struct UploadPlan {
    pub attributes: Option<Vec<AttribPointer>>,
    pub wait_vertex: bool,
    pub wait_index: bool,
    pub draw: DrawCall,
}

/// The legacy immediate uploader: one vertex buffer of caller-packed
/// records and one index buffer, written at caller-chosen offsets. The
/// vertex-array object is created together with the uploader.
pub struct Uploader<T> {
    pub vertex_buffer: GpuBuffer<T>,
    pub index_buffer: GpuBuffer<u32>,
    pub gl_type: u32,
    pub vertex_attributes: Vec<VertexAttribute>,
}

impl<T> Uploader<T> {
    pub open spec fn wf(&self) -> bool {
        &&& self.vertex_buffer.wf()
        &&& self.index_buffer.wf()
        &&& self.vertex_buffer.target() is VertexArray
        &&& self.index_buffer.target() is ElementArray
        &&& self.vertex_attributes@.len() <= u32::MAX
        &&& attrs_size(self.vertex_attributes@) <= usize::MAX
    }

    /// No fence from an earlier flush is outstanding on either owned
    /// buffer, so writes may proceed.
    pub open spec fn ready_for_write(&self) -> bool {
        &&& self.vertex_buffer.ready_for_write()
        &&& self.index_buffer.ready_for_write()
    }

    /// A fresh uploader drawing `gl_type` primitives from vertices laid out
    /// as `vertex_attributes` describes, with empty buffers whose strategy
    /// is chosen from the device's capabilities.
    pub fn new(gl_type: u32, vertex_attributes: Vec<VertexAttribute>, extensions: GlExtensions)
        -> (r: Uploader<T>)
        requires
            vertex_attributes@.len() <= u32::MAX,
            attrs_size(vertex_attributes@) <= usize::MAX,
        ensures
            r.vertex_buffer.elems() == Seq::<T>::empty(),
            r.index_buffer.elems() == Seq::<u32>::empty(),
            r.vertex_buffer.dirty() is None,
            r.index_buffer.dirty() is None,
            !r.vertex_buffer.has_device(),
            !r.index_buffer.has_device(),
            r.vertex_buffer.capacity() == 0,
            r.index_buffer.capacity() == 0,
            !r.vertex_buffer.changed(),
            !r.index_buffer.changed(),
            r.vertex_buffer.is_persistent() == extensions.arb_buffer_storage,
            r.index_buffer.is_persistent() == extensions.arb_buffer_storage,
            r.gl_type == gl_type,
            r.vertex_attributes == vertex_attributes,
            r.ready_for_write(),
            r.wf(),
    {
        Uploader {
            vertex_buffer: new(BufferTarget::VertexArray, extensions),
            index_buffer: new(BufferTarget::ElementArray, extensions),
            gl_type,
            vertex_attributes,
        }
    }

    /// Prepare for writing: drain any fences the previous cycle left on the
    /// owned buffers. The results say which buffers the caller must block
    /// on.
    pub fn prepare_write(&mut self) -> (waited: (bool, bool))
        ensures
            final(self).vertex_buffer == buf_after_sync(old(self).vertex_buffer),
            final(self).index_buffer == buf_after_sync(old(self).index_buffer),
            waited.0 == old(self).vertex_buffer.fence(),
            waited.1 == old(self).index_buffer.fence(),
            final(self).ready_for_write(),
            final(self).gl_type == old(self).gl_type,
            final(self).vertex_attributes == old(self).vertex_attributes,
            old(self).wf() ==> final(self).wf(),
    {
        let wv = self.vertex_buffer.prepare_write();
        let wi = self.index_buffer.prepare_write();
        (wv, wi)
    }

    /// Decide the device operations bringing both device buffers up to date
    /// with the staging state (vertex buffer first), clearing the dirty
    /// ranges.
    pub fn begin_flush(&mut self) -> (ops: (Option<FlushOp>, Option<FlushOp>))
        requires
            old(self).wf(),
        ensures
            final(self).vertex_buffer == buf_after_flush(old(self).vertex_buffer),
            final(self).index_buffer == buf_after_flush(old(self).index_buffer),
            ops.0 == buf_flush_op(old(self).vertex_buffer),
            ops.1 == buf_flush_op(old(self).index_buffer),
            final(self).gl_type == old(self).gl_type,
            final(self).vertex_attributes == old(self).vertex_attributes,
            final(self).wf(),
    {
        let ov = self.vertex_buffer.begin_flush();
        let oi = self.index_buffer.begin_flush();
        (ov, oi)
    }

    /// Wait for both buffers' flushes to complete (vertex buffer first);
    /// the results say which fences the caller must block on and discard.
    pub fn sync_flush(&mut self) -> (waited: (bool, bool))
        ensures
            final(self).vertex_buffer == buf_after_sync(old(self).vertex_buffer),
            final(self).index_buffer == buf_after_sync(old(self).index_buffer),
            waited.0 == old(self).vertex_buffer.fence(),
            waited.1 == old(self).index_buffer.fence(),
            final(self).ready_for_write(),
            final(self).gl_type == old(self).gl_type,
            final(self).vertex_attributes == old(self).vertex_attributes,
            old(self).wf() ==> final(self).wf(),
    {
        let wv = self.vertex_buffer.sync_flush();
        let wi = self.index_buffer.sync_flush();
        (wv, wi)
    }

    /// Decide the bind step: the vertex-array object and both buffers are
    /// always bound; the attribute bindings are reconfigured once both
    /// device buffers exist and either was recreated, clearing the
    /// recreation flags.
    pub fn bind(&mut self) -> (attributes: Option<Vec<AttribPointer>>)
        requires
            old(self).wf(),
        ensures
            (attributes is Some) == (old(self).vertex_buffer.has_device() && old(
                self,
            ).index_buffer.has_device() && (old(self).vertex_buffer.changed() || old(
                self,
            ).index_buffer.changed())),
            attributes matches Some(a) ==> {
                &&& a@.len() == old(self).vertex_attributes@.len()
                &&& forall|k: int| 0 <= k < a@.len() ==> a@[k] == attrib_pointer_at(
                    old(self).vertex_attributes@,
                    k,
                )
                &&& !final(self).vertex_buffer.changed()
                &&& !final(self).index_buffer.changed()
            },
            attributes is None ==> *final(self) == *old(self),
            final(self).vertex_buffer.elems() == old(self).vertex_buffer.elems(),
            final(self).index_buffer.elems() == old(self).index_buffer.elems(),
            final(self).vertex_buffer.dirty() == old(self).vertex_buffer.dirty(),
            final(self).index_buffer.dirty() == old(self).index_buffer.dirty(),
            final(self).vertex_buffer.capacity() == old(self).vertex_buffer.capacity(),
            final(self).index_buffer.capacity() == old(self).index_buffer.capacity(),
            final(self).vertex_buffer.has_device() == old(self).vertex_buffer.has_device(),
            final(self).index_buffer.has_device() == old(self).index_buffer.has_device(),
            final(self).vertex_buffer.fence() == old(self).vertex_buffer.fence(),
            final(self).index_buffer.fence() == old(self).index_buffer.fence(),
            final(self).gl_type == old(self).gl_type,
            final(self).vertex_attributes == old(self).vertex_attributes,
            final(self).wf(),
    {
        if self.vertex_buffer.has_backing_buffer() && self.index_buffer.has_backing_buffer() && (
        self.vertex_buffer.backing_buffer_changed()
            || self.index_buffer.backing_buffer_changed()) {
            let pointers = attribute_pointers(&self.vertex_attributes);
            self.vertex_buffer.clear_buffer_changed();
            self.index_buffer.clear_buffer_changed();
            Some(pointers)
        } else {
            None
        }
    }

    /// Decide one whole upload step: bind, wait out any outstanding fences,
    /// then draw every accumulated index as `gl_type` primitives with
    /// unsigned-int indices.
    pub fn upload(&mut self) -> (plan: UploadPlan)
        requires
            old(self).wf(),
        ensures
            plan.draw == (DrawCall {
                mode: old(self).gl_type,
                count: old(self).index_buffer.elems().len() as usize,
                index_type: GL_UNSIGNED_INT,
            }),
            (plan.attributes is Some) == (old(self).vertex_buffer.has_device() && old(
                self,
            ).index_buffer.has_device() && (old(self).vertex_buffer.changed() || old(
                self,
            ).index_buffer.changed())),
            plan.attributes matches Some(a) ==> {
                &&& a@.len() == old(self).vertex_attributes@.len()
                &&& forall|k: int| 0 <= k < a@.len() ==> a@[k] == attrib_pointer_at(
                    old(self).vertex_attributes@,
                    k,
                )
            },
            plan.wait_vertex == old(self).vertex_buffer.fence(),
            plan.wait_index == old(self).index_buffer.fence(),
            plan.attributes is Some ==> !final(self).vertex_buffer.changed()
                && !final(self).index_buffer.changed(),
            plan.attributes is None ==> final(self).vertex_buffer.changed() == old(
                self,
            ).vertex_buffer.changed() && final(self).index_buffer.changed() == old(
                self,
            ).index_buffer.changed(),
            final(self).ready_for_write(),
            final(self).vertex_buffer.elems() == old(self).vertex_buffer.elems(),
            final(self).index_buffer.elems() == old(self).index_buffer.elems(),
            final(self).vertex_buffer.dirty() == old(self).vertex_buffer.dirty(),
            final(self).index_buffer.dirty() == old(self).index_buffer.dirty(),
            final(self).vertex_buffer.capacity() == old(self).vertex_buffer.capacity(),
            final(self).index_buffer.capacity() == old(self).index_buffer.capacity(),
            final(self).vertex_buffer.has_device() == old(self).vertex_buffer.has_device(),
            final(self).index_buffer.has_device() == old(self).index_buffer.has_device(),
            final(self).gl_type == old(self).gl_type,
            final(self).vertex_attributes == old(self).vertex_attributes,
            final(self).wf(),
    {
        let attributes = self.bind();
        let waited = self.sync_flush();
        let count = self.index_buffer.len();
        UploadPlan {
            attributes,
            wait_vertex: waited.0,
            wait_index: waited.1,
            draw: DrawCall { mode: self.gl_type, count, index_type: GL_UNSIGNED_INT },
        }
    }
}

impl<T: Copy> Uploader<T> {
    /// Stage a batch of vertex records at `offset`; the returned range, if
    /// any, must be copied into the persistently mapped region immediately.
    pub fn write_vertices(&mut self, offset: usize, data: &[T]) -> (mapped: Option<MappedWrite>)
        requires
            old(self).wf(),
            old(self).ready_for_write(),
            offset <= old(self).vertex_buffer.elems().len(),
            offset + data@.len() <= usize::MAX,
        ensures
            final(self).vertex_buffer.elems() == write_elems(
                old(self).vertex_buffer.elems(),
                offset as int,
                data@,
            ),
            final(self).vertex_buffer.dirty() == merge_dirty(
                old(self).vertex_buffer.dirty(),
                offset as int,
                offset + data@.len(),
            ),
            final(self).vertex_buffer.capacity() == old(self).vertex_buffer.capacity(),
            final(self).vertex_buffer.has_device() == old(self).vertex_buffer.has_device(),
            final(self).vertex_buffer.changed() == old(self).vertex_buffer.changed(),
            final(self).vertex_buffer.fence() == old(self).vertex_buffer.fence(),
            final(self).index_buffer == old(self).index_buffer,
            mapped == if old(self).vertex_buffer.is_persistent()
                && old(self).vertex_buffer.has_device() && offset + data@.len() <= old(
                self,
            ).vertex_buffer.capacity() {
                Some(MappedWrite { start: offset, end: (offset + data@.len()) as usize })
            } else {
                Option::<MappedWrite>::None
            },
            final(self).ready_for_write(),
            final(self).gl_type == old(self).gl_type,
            final(self).vertex_attributes == old(self).vertex_attributes,
            final(self).wf(),
    {
        self.vertex_buffer.write(offset, data)
    }

    /// Stage a batch of indices at `offset`; the returned range, if any,
    /// must be copied into the persistently mapped region immediately.
    pub fn write_indices(&mut self, offset: usize, data: &[u32]) -> (mapped: Option<MappedWrite>)
        requires
            old(self).wf(),
            old(self).ready_for_write(),
            offset <= old(self).index_buffer.elems().len(),
            offset + data@.len() <= usize::MAX,
        ensures
            final(self).index_buffer.elems() == write_elems(
                old(self).index_buffer.elems(),
                offset as int,
                data@,
            ),
            final(self).index_buffer.dirty() == merge_dirty(
                old(self).index_buffer.dirty(),
                offset as int,
                offset + data@.len(),
            ),
            final(self).index_buffer.capacity() == old(self).index_buffer.capacity(),
            final(self).index_buffer.has_device() == old(self).index_buffer.has_device(),
            final(self).index_buffer.changed() == old(self).index_buffer.changed(),
            final(self).index_buffer.fence() == old(self).index_buffer.fence(),
            final(self).vertex_buffer == old(self).vertex_buffer,
            mapped == if old(self).index_buffer.is_persistent()
                && old(self).index_buffer.has_device() && offset + data@.len() <= old(
                self,
            ).index_buffer.capacity() {
                Some(MappedWrite { start: offset, end: (offset + data@.len()) as usize })
            } else {
                Option::<MappedWrite>::None
            },
            final(self).ready_for_write(),
            final(self).gl_type == old(self).gl_type,
            final(self).vertex_attributes == old(self).vertex_attributes,
            final(self).wf(),
    {
        self.index_buffer.write(offset, data)
    }
}

} // verus!
