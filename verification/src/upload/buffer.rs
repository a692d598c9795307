//! CPU staging backers and the two device-buffer strategies built on them.
//!
//! A [`CpuBacker`] accumulates arbitrary-offset writes of element batches in
//! a growable array and tracks the smallest contiguous index interval
//! touched since the last flush. The buffer strategies decide, from that
//! state, which device operation each step of the upload cycle must perform;
//! the operations themselves are foreign driver calls and are carried out by
//! the layer that owns the graphics context.

use vstd::prelude::*;

verus! {

/// The device binding point a buffer is created for.
#[derive(Clone, Copy, PartialEq, Eq, Structural, Debug)]
pub enum BufferTarget {
    /// Vertex data (`GL_ARRAY_BUFFER`).
    VertexArray,
    /// Index data (`GL_ELEMENT_ARRAY_BUFFER`).
    ElementArray,
    /// Per-primitive data (`GL_SHADER_STORAGE_BUFFER`).
    ShaderStorage,
}

/// The smallest contiguous element interval `[start, end)` touched since the
/// last flush.
#[derive(Clone, Copy, PartialEq, Eq, Structural, Debug)]
pub struct DirtyRange {
    pub start: usize,
    pub end: usize,
}

/// CPU-side growable array shadowing a device buffer's contents, with
/// dirty-range tracking.
pub struct CpuBacker<T> {
    pub buffer: Vec<T>,
    pub modified_range: Option<DirtyRange>,
    pub reallocated: bool,
}

/// The tracked dirty interval as a pair of mathematical bounds.
pub open spec fn dirty_of(r: Option<DirtyRange>) -> Option<(int, int)> {
    match r {
        Some(d) => Some((d.start as int, d.end as int)),
        None => None,
    }
}

/// Merge the interval `[lo, hi)` into a tracked dirty interval: the union's
/// smallest enclosing interval.
pub open spec fn merge_dirty(dirty: Option<(int, int)>, lo: int, hi: int) -> Option<(int, int)> {
    match dirty {
        Some((s, e)) => Some((if s < lo { s } else { lo }, if e > hi { e } else { hi })),
        None => Some((lo, hi)),
    }
}

/// Intersect a tracked dirty interval with `[0, n)` after the element array
/// was cut to length `n`.
pub open spec fn clamp_dirty(dirty: Option<(int, int)>, n: int) -> Option<(int, int)> {
    match dirty {
        Some((s, e)) => if e <= n {
            Some((s, e))
        } else if s < n {
            Some((s, n))
        } else {
            None
        },
        None => None,
    }
}

/// The element array after writing `data` at `offset`: in-bound elements are
/// overwritten in place; a write past the end grows the array to exactly
/// `offset + data.len()` elements.
pub open spec fn write_elems<T>(elems: Seq<T>, offset: int, data: Seq<T>) -> Seq<T> {
    if offset + data.len() <= elems.len() {
        elems.take(offset) + data + elems.skip(offset + data.len())
    } else {
        elems.take(offset) + data
    }
}

impl<T> CpuBacker<T> {
    /// The elements currently staged.
    pub open spec fn elems(&self) -> Seq<T> {
        self.buffer@
    }

    /// The tracked dirty interval.
    pub open spec fn dirty(&self) -> Option<(int, int)> {
        dirty_of(self.modified_range)
    }

    /// The dirty interval, when present, is a subrange of the element array.
    pub open spec fn wf(&self) -> bool {
        match self.dirty() {
            Some((s, e)) => 0 <= s <= e <= self.elems().len(),
            None => true,
        }
    }

    /// An empty, clean backer.
    pub fn new() -> (r: CpuBacker<T>)
        ensures
            r.elems() == Seq::<T>::empty(),
            r.dirty() is None,
            !r.reallocated,
            r.wf(),
    {
        CpuBacker { buffer: Vec::new(), modified_range: None, reallocated: false }
    }

    /// The staged element count.
    pub fn len(&self) -> (r: usize)
        ensures
            r == self.elems().len(),
    {
        self.buffer.len()
    }

    /// Borrow the staged elements (the upload source for a flush).
    pub fn elements(&self) -> (r: &Vec<T>)
        ensures
            r@ == self.elems(),
    {
        &self.buffer
    }

    /// The tracked dirty interval, by value.
    pub fn dirty_range(&self) -> (r: Option<DirtyRange>)
        ensures
            dirty_of(r) == self.dirty(),
    {
        self.modified_range
    }

    /// Reset the staging length to zero; later writes append from the start
    /// again.
    pub fn clear(&mut self)
        ensures
            final(self).elems() == Seq::<T>::empty(),
            final(self).dirty() is None,
            final(self).reallocated == old(self).reallocated,
            final(self).wf(),
    {
        self.buffer.truncate(0);
        self.modified_range = None;
        proof {
            assert(self.buffer@ =~= Seq::<T>::empty());
        }
    }
}

impl<T: Copy> CpuBacker<T> {
    /// Write a batch of elements at `offset`, growing the array if the batch
    /// reaches past its end, and merge the touched interval into the dirty
    /// range.
    ///
    /// Growth keeps the elements below `offset` and makes the array exactly
    /// `offset + data.len()` long, recording the reallocation.
    pub fn write(&mut self, offset: usize, data: &[T])
        requires
            old(self).wf(),
            offset <= old(self).elems().len(),
            offset + data@.len() <= usize::MAX,
        ensures
            final(self).elems() == write_elems(old(self).elems(), offset as int, data@),
            final(self).dirty() == merge_dirty(
                old(self).dirty(),
                offset as int,
                offset + data@.len(),
            ),
            final(self).reallocated == (old(self).reallocated
                || offset + data@.len() > old(self).elems().len()),
            final(self).wf(),
    {
        let count = data.len();
        let ghost old_elems = self.buffer@;
        if count > self.buffer.len() - offset {
            // the batch reaches past the end: grow to exactly offset + count
            self.buffer.truncate(offset);
            let mut i: usize = 0;
            while i < count
                invariant
                    i <= count,
                    count == data@.len(),
                    offset + count <= usize::MAX,
                    self.buffer@ == old_elems.take(offset as int) + data@.take(i as int),
                    self.modified_range == old(self).modified_range,
                    self.reallocated == old(self).reallocated,
                decreases count - i,
            {
                self.buffer.push(data[i]);
                proof {
                    assert(old_elems.take(offset as int) + data@.take(i + 1 as int)
                        =~= (old_elems.take(offset as int) + data@.take(i as int)).push(
                        data@[i as int],
                    ));
                }
                i = i + 1;
            }
            proof {
                assert(data@.take(count as int) =~= data@);
            }
            self.reallocated = true;
        } else {
            let mut i: usize = 0;
            while i < count
                invariant
                    i <= count,
                    count == data@.len(),
                    offset + count <= usize::MAX,
                    offset + count <= self.buffer@.len(),
                    self.buffer@.len() == old_elems.len(),
                    forall|k: int| 0 <= k < offset ==> self.buffer@[k] == old_elems[k],
                    forall|k: int| 0 <= k < i ==> self.buffer@[offset + k] == data@[k],
                    forall|k: int| offset + i <= k < old_elems.len()
                        ==> self.buffer@[k] == old_elems[k],
                    self.modified_range == old(self).modified_range,
                    self.reallocated == old(self).reallocated,
                decreases count - i,
            {
                self.buffer[offset + i] = data[i];
                i = i + 1;
            }
            proof {
                assert(self.buffer@ =~= write_elems(old_elems, offset as int, data@));
            }
        }
        let lo = offset;
        let hi = offset + count;
        let merged = match &self.modified_range {
            Some(r) => DirtyRange {
                start: if r.start < lo {
                    r.start
                } else {
                    lo
                },
                end: if r.end > hi {
                    r.end
                } else {
                    hi
                },
            },
            None => DirtyRange { start: lo, end: hi },
        };
        self.modified_range = Some(merged);
    }

    /// Cut or extend the element array to exactly `size` elements, filling
    /// new slots with `fill`. The dirty range is not marked, only cut back
    /// to the new length where it would otherwise reach past the end.
    pub fn resize(&mut self, size: usize, fill: T)
        requires
            old(self).wf(),
        ensures
            size <= old(self).elems().len() ==> final(self).elems() == old(self).elems().take(
                size as int,
            ),
            size > old(self).elems().len() ==> final(self).elems() == old(self).elems()
                + Seq::<T>::new((size - old(self).elems().len()) as nat, |i: int| fill),
            final(self).dirty() == clamp_dirty(old(self).dirty(), size as int),
            final(self).reallocated == old(self).reallocated,
            final(self).wf(),
    {
        let ghost old_elems = self.buffer@;
        if size <= self.buffer.len() {
            self.buffer.truncate(size);
            proof {
                assert(self.buffer@ =~= old_elems.take(size as int));
            }
        } else {
            while self.buffer.len() < size
                invariant
                    old_elems.len() <= self.buffer@.len() <= size,
                    self.buffer@ == old_elems + Seq::<T>::new(
                        (self.buffer@.len() - old_elems.len()) as nat,
                        |i: int| fill,
                    ),
                    self.modified_range == old(self).modified_range,
                    self.reallocated == old(self).reallocated,
                decreases size - self.buffer@.len(),
            {
                let ghost n = self.buffer@.len() - old_elems.len();
                self.buffer.push(fill);
                proof {
                    assert(old_elems + Seq::<T>::new((n + 1) as nat, |i: int| fill)
                        =~= (old_elems + Seq::<T>::new(n as nat, |i: int| fill)).push(fill));
                }
            }
        }
        let cut = match &self.modified_range {
            Some(r) => {
                if r.end <= size {
                    Some(DirtyRange { start: r.start, end: r.end })
                } else if r.start < size {
                    Some(DirtyRange { start: r.start, end: size })
                } else {
                    None
                }
            },
            None => None,
        };
        self.modified_range = cut;
    }
}

/// The dirty interval left by a sequence of writes `[lo, hi)` folded through
/// [`merge_dirty`], starting clean.
pub open spec fn merged_writes(ws: Seq<(int, int)>) -> Option<(int, int)>
    decreases ws.len(),
{
    if ws.len() == 0 {
        None
    } else {
        merge_dirty(merged_writes(ws.drop_last()), ws.last().0, ws.last().1)
    }
}

/// The smallest write start of a nonempty write sequence.
pub open spec fn min_write_start(ws: Seq<(int, int)>) -> int
    decreases ws.len(),
{
    if ws.len() <= 1 {
        ws[0].0
    } else {
        let m = min_write_start(ws.drop_last());
        if m < ws.last().0 {
            m
        } else {
            ws.last().0
        }
    }
}

/// The largest write end of a nonempty write sequence.
pub open spec fn max_write_end(ws: Seq<(int, int)>) -> int
    decreases ws.len(),
{
    if ws.len() <= 1 {
        ws[0].1
    } else {
        let m = max_write_end(ws.drop_last());
        if m > ws.last().1 {
            m
        } else {
            ws.last().1
        }
    }
}

/// Dirty-range merging: across any sequence of writes since the last clear,
/// the tracked dirty range is exactly the interval from the smallest write
/// start to the largest write end.
pub proof fn lemma_dirty_range_merging(ws: Seq<(int, int)>)
    requires
        ws.len() > 0,
    ensures
        merged_writes(ws) == Some((min_write_start(ws), max_write_end(ws))),
    decreases ws.len(),
{
    if ws.len() > 1 {
        lemma_dirty_range_merging(ws.drop_last());
    } else {
        assert(ws.drop_last().len() == 0);
        assert(merged_writes(ws.drop_last()) is None);
    }
}

/// The device operation a flush decided on.
#[derive(Clone, Copy, PartialEq, Eq, Structural, Debug)]
pub enum FlushOp {
    /// (Re)allocate the device buffer for `len` elements and hand it the
    /// entire staging content.
    Recreate { len: usize },
    /// Make the device see exactly the staged elements `[start, end)`.
    Upload { start: usize, end: usize },
}

/// An immediate copy of staged elements `[start, end)` into the persistently
/// mapped region.
#[derive(Clone, Copy, PartialEq, Eq, Structural, Debug)]
pub struct MappedWrite {
    pub start: usize,
    pub end: usize,
}

/// Device buffer kept current with `glBufferSubData`-style re-uploads: works
/// on any device, uploads synchronously during the flush.
pub struct CompatBuffer<T> {
    pub buffer_type: BufferTarget,
    pub backer: CpuBacker<T>,
    /// Elements currently allocated on the device; 0 while no device buffer
    /// exists.
    pub gl_buffer_size: usize,
    pub has_gl_buffer: bool,
    /// Set when the device buffer came into existence, until the owning
    /// uploader reconfigures its attribute bindings.
    pub backing_buffer_changed: bool,
}

/// A compat flush recreates the device buffer whenever the staging length
/// outgrew it, else re-uploads exactly the dirty interval, else does
/// nothing.
pub open spec fn compat_flush_op<T>(b: CompatBuffer<T>) -> Option<FlushOp> {
    if b.gl_buffer_size < b.backer.elems().len() {
        Some(FlushOp::Recreate { len: b.backer.elems().len() as usize })
    } else {
        match b.backer.dirty() {
            Some((s, e)) => Some(FlushOp::Upload { start: s as usize, end: e as usize }),
            None => None,
        }
    }
}

/// The state a compat flush leaves behind: capacity caught up with staging,
/// creation recorded the first time, dirty range cleared.
pub open spec fn compat_after_flush<T>(b: CompatBuffer<T>) -> CompatBuffer<T> {
    let grew = b.gl_buffer_size < b.backer.elems().len();
    CompatBuffer {
        buffer_type: b.buffer_type,
        backer: CpuBacker { modified_range: None, ..b.backer },
        gl_buffer_size: if grew {
            b.backer.elems().len() as usize
        } else {
            b.gl_buffer_size
        },
        has_gl_buffer: b.has_gl_buffer || grew,
        backing_buffer_changed: b.backing_buffer_changed || (grew && !b.has_gl_buffer),
    }
}

impl<T> CompatBuffer<T> {
    pub open spec fn wf(&self) -> bool {
        &&& self.backer.wf()
        &&& (!self.has_gl_buffer ==> self.gl_buffer_size == 0)
    }

    /// A fresh buffer for `buffer_type`, with no device allocation yet.
    pub fn new(buffer_type: BufferTarget) -> (r: CompatBuffer<T>)
        ensures
            r.buffer_type == buffer_type,
            r.backer.elems() == Seq::<T>::empty(),
            r.backer.dirty() is None,
            !r.backer.reallocated,
            r.gl_buffer_size == 0,
            !r.has_gl_buffer,
            !r.backing_buffer_changed,
            r.wf(),
    {
        CompatBuffer {
            buffer_type,
            backer: CpuBacker::new(),
            gl_buffer_size: 0,
            has_gl_buffer: false,
            backing_buffer_changed: false,
        }
    }

    /// Uploads are synchronous, so there is never outstanding device work to
    /// wait for before writing.
    pub fn prepare_write(&mut self)
        ensures
            *final(self) == *old(self),
    {
    }

    /// Decide the device operation bringing the device buffer up to date
    /// with the staging state, and clear the dirty range.
    pub fn begin_flush(&mut self) -> (op: Option<FlushOp>)
        requires
            old(self).wf(),
        ensures
            *final(self) == compat_after_flush(*old(self)),
            op == compat_flush_op(*old(self)),
            final(self).wf(),
    {
        let len = self.backer.len();
        let op = if self.gl_buffer_size < len {
            if !self.has_gl_buffer {
                self.has_gl_buffer = true;
                self.backing_buffer_changed = true;
            }
            self.gl_buffer_size = len;
            Some(FlushOp::Recreate { len })
        } else {
            match self.backer.dirty_range() {
                Some(r) => Some(FlushOp::Upload { start: r.start, end: r.end }),
                None => None,
            }
        };
        self.backer.modified_range = None;
        op
    }

    /// The update already completed synchronously when the flush was
    /// performed; nothing to wait for.
    pub fn sync_flush(&mut self)
        ensures
            *final(self) == *old(self),
    {
    }
}

impl<T: Copy> CompatBuffer<T> {
    /// Stage a batch of elements at `offset` (see [`CpuBacker::write`]).
    pub fn write(&mut self, offset: usize, data: &[T])
        requires
            old(self).wf(),
            offset <= old(self).backer.elems().len(),
            offset + data@.len() <= usize::MAX,
        ensures
            final(self).backer.elems() == write_elems(
                old(self).backer.elems(),
                offset as int,
                data@,
            ),
            final(self).backer.dirty() == merge_dirty(
                old(self).backer.dirty(),
                offset as int,
                offset + data@.len(),
            ),
            final(self).backer.reallocated == (old(self).backer.reallocated
                || offset + data@.len() > old(self).backer.elems().len()),
            final(self).buffer_type == old(self).buffer_type,
            final(self).gl_buffer_size == old(self).gl_buffer_size,
            final(self).has_gl_buffer == old(self).has_gl_buffer,
            final(self).backing_buffer_changed == old(self).backing_buffer_changed,
            final(self).wf(),
    {
        self.backer.write(offset, data);
    }

    /// Cut or extend the staging length; the device allocation is never
    /// shrunk by a resize, only replaced by a later flush that outgrows it.
    pub fn resize(&mut self, size: usize, fill: T)
        requires
            old(self).wf(),
        ensures
            size <= old(self).backer.elems().len() ==> final(self).backer.elems() == old(
                self,
            ).backer.elems().take(size as int),
            size > old(self).backer.elems().len() ==> final(self).backer.elems() == old(
                self,
            ).backer.elems() + Seq::<T>::new(
                (size - old(self).backer.elems().len()) as nat,
                |i: int| fill,
            ),
            final(self).backer.dirty() == clamp_dirty(old(self).backer.dirty(), size as int),
            final(self).backer.reallocated == old(self).backer.reallocated,
            final(self).buffer_type == old(self).buffer_type,
            final(self).gl_buffer_size == old(self).gl_buffer_size,
            final(self).has_gl_buffer == old(self).has_gl_buffer,
            final(self).backing_buffer_changed == old(self).backing_buffer_changed,
            final(self).wf(),
    {
        self.backer.resize(size, fill);
    }
}

/// Device buffer backed by a persistently mapped region: writes land
/// directly in device-visible memory and flushes only publish ranges,
/// fenced against the device still reading them.
pub struct PersistentBuffer<T> {
    pub buffer_type: BufferTarget,
    pub backer: CpuBacker<T>,
    /// Elements currently allocated (and mapped) on the device; 0 while no
    /// device buffer exists. Only grows until the buffer is recreated.
    pub gl_buffer_size: usize,
    /// Whether a device buffer, and with it the mapped region, exists.
    pub has_gl_buffer: bool,
    /// Whether a fence guarding the last published range is outstanding.
    pub flush_fence: bool,
    /// Set when the device buffer was (re)created, until the owning
    /// uploader reconfigures its attribute bindings.
    pub backing_buffer_changed: bool,
}

/// A persistent flush recreates (and remaps) the device buffer whenever the
/// staging length outgrew it, else publishes exactly the dirty interval and
/// fences it, else does nothing.
pub open spec fn persistent_flush_op<T>(b: PersistentBuffer<T>) -> Option<FlushOp> {
    if b.gl_buffer_size < b.backer.elems().len() {
        Some(FlushOp::Recreate { len: b.backer.elems().len() as usize })
    } else {
        match b.backer.dirty() {
            Some((s, e)) => Some(FlushOp::Upload { start: s as usize, end: e as usize }),
            None => None,
        }
    }
}

/// The state a persistent flush leaves behind. A recreation replaces the
/// device buffer (so attribute bindings must be redone) and discards any
/// fence along with the old allocation; publishing a range leaves a new
/// fence outstanding; doing nothing leaves everything as it was.
pub open spec fn persistent_after_flush<T>(b: PersistentBuffer<T>) -> PersistentBuffer<T> {
    let grew = b.gl_buffer_size < b.backer.elems().len();
    PersistentBuffer {
        buffer_type: b.buffer_type,
        backer: CpuBacker { modified_range: None, ..b.backer },
        gl_buffer_size: if grew {
            b.backer.elems().len() as usize
        } else {
            b.gl_buffer_size
        },
        has_gl_buffer: b.has_gl_buffer || grew,
        flush_fence: if grew {
            false
        } else if b.backer.dirty() is Some {
            true
        } else {
            b.flush_fence
        },
        backing_buffer_changed: b.backing_buffer_changed || grew,
    }
}

/// The state after waiting out (and discarding) any outstanding fence.
pub open spec fn persistent_after_sync<T>(b: PersistentBuffer<T>) -> PersistentBuffer<T> {
    PersistentBuffer { flush_fence: false, ..b }
}

impl<T> PersistentBuffer<T> {
    pub open spec fn wf(&self) -> bool {
        &&& self.backer.wf()
        &&& (!self.has_gl_buffer ==> self.gl_buffer_size == 0)
    }

    /// Writing into the mapped region is only safe once no fence from an
    /// earlier flush is outstanding: the device may still be reading it.
    pub open spec fn ready_for_write(&self) -> bool {
        !self.flush_fence
    }

    /// A fresh buffer for `buffer_type`, with no device allocation yet.
    pub fn new(buffer_type: BufferTarget) -> (r: PersistentBuffer<T>)
        ensures
            r.buffer_type == buffer_type,
            r.backer.elems() == Seq::<T>::empty(),
            r.backer.dirty() is None,
            !r.backer.reallocated,
            r.gl_buffer_size == 0,
            !r.has_gl_buffer,
            !r.flush_fence,
            !r.backing_buffer_changed,
            r.wf(),
    {
        PersistentBuffer {
            buffer_type,
            backer: CpuBacker::new(),
            gl_buffer_size: 0,
            has_gl_buffer: false,
            flush_fence: false,
            backing_buffer_changed: false,
        }
    }

    /// Wait out the previous cycle's fence before any new write touches the
    /// mapped region: afterwards the buffer accepts writes again.
    pub fn prepare_write(&mut self) -> (waited: bool)
        ensures
            *final(self) == persistent_after_sync(*old(self)),
            waited == old(self).flush_fence,
            final(self).ready_for_write(),
    {
        self.sync_flush()
    }

    /// Decide the device operation bringing the device buffer up to date
    /// with the staging state, and clear the dirty range.
    pub fn begin_flush(&mut self) -> (op: Option<FlushOp>)
        requires
            old(self).wf(),
        ensures
            *final(self) == persistent_after_flush(*old(self)),
            op == persistent_flush_op(*old(self)),
            final(self).wf(),
    {
        let len = self.backer.len();
        let op = if self.gl_buffer_size < len {
            self.gl_buffer_size = len;
            self.has_gl_buffer = true;
            self.backing_buffer_changed = true;
            self.flush_fence = false;
            Some(FlushOp::Recreate { len })
        } else {
            match self.backer.dirty_range() {
                Some(r) => {
                    self.flush_fence = true;
                    Some(FlushOp::Upload { start: r.start, end: r.end })
                },
                None => None,
            }
        };
        self.backer.modified_range = None;
        op
    }

    /// If a fence is outstanding, the caller must block until it signals and
    /// discard it; afterwards no fence is outstanding.
    pub fn sync_flush(&mut self) -> (waited: bool)
        ensures
            *final(self) == persistent_after_sync(*old(self)),
            waited == old(self).flush_fence,
            final(self).ready_for_write(),
    {
        let waited = self.flush_fence;
        self.flush_fence = false;
        waited
    }
}

impl<T: Copy> PersistentBuffer<T> {
    /// Stage a batch of elements at `offset`; when the mapped region exists
    /// and the batch lies within the device allocation, the batch must also
    /// be copied into the mapped region immediately — the returned range
    /// says so.
    ///
    /// Requires the previous cycle's fence to have been drained
    /// (`prepare_write`): writing the mapped region while the device may
    /// still be reading it is a data race.
    pub fn write(&mut self, offset: usize, data: &[T]) -> (mapped: Option<MappedWrite>)
        requires
            old(self).wf(),
            old(self).ready_for_write(),
            offset <= old(self).backer.elems().len(),
            offset + data@.len() <= usize::MAX,
        ensures
            final(self).backer.elems() == write_elems(
                old(self).backer.elems(),
                offset as int,
                data@,
            ),
            final(self).backer.dirty() == merge_dirty(
                old(self).backer.dirty(),
                offset as int,
                offset + data@.len(),
            ),
            final(self).backer.reallocated == (old(self).backer.reallocated
                || offset + data@.len() > old(self).backer.elems().len()),
            final(self).buffer_type == old(self).buffer_type,
            final(self).gl_buffer_size == old(self).gl_buffer_size,
            final(self).has_gl_buffer == old(self).has_gl_buffer,
            final(self).flush_fence == old(self).flush_fence,
            final(self).backing_buffer_changed == old(self).backing_buffer_changed,
            mapped == if old(self).has_gl_buffer && offset + data@.len() <= old(
                self,
            ).gl_buffer_size {
                Some(MappedWrite { start: offset, end: (offset + data@.len()) as usize })
            } else {
                Option::<MappedWrite>::None
            },
            final(self).wf(),
    {
        let mapped = if self.has_gl_buffer && offset <= self.gl_buffer_size
            && data.len() <= self.gl_buffer_size - offset {
            Some(MappedWrite { start: offset, end: offset + data.len() })
        } else {
            None
        };
        self.backer.write(offset, data);
        mapped
    }

    /// Cut or extend the staging length; the device allocation is never
    /// shrunk by a resize, only replaced by a later flush that outgrows it.
    pub fn resize(&mut self, size: usize, fill: T)
        requires
            old(self).wf(),
        ensures
            size <= old(self).backer.elems().len() ==> final(self).backer.elems() == old(
                self,
            ).backer.elems().take(size as int),
            size > old(self).backer.elems().len() ==> final(self).backer.elems() == old(
                self,
            ).backer.elems() + Seq::<T>::new(
                (size - old(self).backer.elems().len()) as nat,
                |i: int| fill,
            ),
            final(self).backer.dirty() == clamp_dirty(old(self).backer.dirty(), size as int),
            final(self).backer.reallocated == old(self).backer.reallocated,
            final(self).buffer_type == old(self).buffer_type,
            final(self).gl_buffer_size == old(self).gl_buffer_size,
            final(self).has_gl_buffer == old(self).has_gl_buffer,
            final(self).flush_fence == old(self).flush_fence,
            final(self).backing_buffer_changed == old(self).backing_buffer_changed,
            final(self).wf(),
    {
        self.backer.resize(size, fill);
    }
}

/// Growth monotonicity: a flush never shrinks the device allocation, and it
/// changes the allocation's size only by a full recreation, triggered
/// exactly when the staging length exceeded the prior capacity.
pub proof fn lemma_capacity_monotonic<T>(b: PersistentBuffer<T>)
    requires
        b.backer.elems().len() <= usize::MAX,
    ensures
        persistent_after_flush(b).gl_buffer_size >= b.gl_buffer_size,
        persistent_after_flush(b).gl_buffer_size != b.gl_buffer_size ==> {
            &&& b.gl_buffer_size < b.backer.elems().len()
            &&& persistent_after_flush(b).gl_buffer_size == b.backer.elems().len()
        },
{
}

/// Flush idempotence: a second flush with no intervening write finds a clean
/// buffer — it performs no device operation, leaves the state untouched and,
/// on the persistent strategy, creates no new fence.
pub proof fn lemma_flush_idempotent<T>(b: PersistentBuffer<T>)
    requires
        b.wf(),
        b.backer.elems().len() <= usize::MAX,
    ensures
        persistent_flush_op(persistent_after_flush(b)) is None,
        persistent_after_flush(persistent_after_flush(b)) == persistent_after_flush(b),
{
}

/// Flush idempotence for the compat strategy: a second flush with no
/// intervening write performs no device operation and leaves the state
/// untouched.
pub proof fn lemma_compat_flush_idempotent<T>(b: CompatBuffer<T>)
    requires
        b.wf(),
        b.backer.elems().len() <= usize::MAX,
    ensures
        compat_flush_op(compat_after_flush(b)) is None,
        compat_after_flush(compat_after_flush(b)) == compat_after_flush(b),
{
}

/// A device buffer behind one of the two backing strategies, chosen once at
/// construction from the device's capabilities and never re-evaluated.
pub enum GpuBuffer<T> {
    Compat(CompatBuffer<T>),
    Persistent(PersistentBuffer<T>),
}

/// The flush operation [`GpuBuffer::begin_flush`] decides on.
pub open spec fn buf_flush_op<T>(b: GpuBuffer<T>) -> Option<FlushOp> {
    match b {
        GpuBuffer::Compat(c) => compat_flush_op(c),
        GpuBuffer::Persistent(p) => persistent_flush_op(p),
    }
}

/// The state [`GpuBuffer::begin_flush`] leaves behind.
pub open spec fn buf_after_flush<T>(b: GpuBuffer<T>) -> GpuBuffer<T> {
    match b {
        GpuBuffer::Compat(c) => GpuBuffer::Compat(compat_after_flush(c)),
        GpuBuffer::Persistent(p) => GpuBuffer::Persistent(persistent_after_flush(p)),
    }
}

/// The state [`GpuBuffer::sync_flush`] leaves behind.
pub open spec fn buf_after_sync<T>(b: GpuBuffer<T>) -> GpuBuffer<T> {
    match b {
        GpuBuffer::Compat(c) => GpuBuffer::Compat(c),
        GpuBuffer::Persistent(p) => GpuBuffer::Persistent(persistent_after_sync(p)),
    }
}

impl<T> GpuBuffer<T> {
    pub open spec fn wf(&self) -> bool {
        match self {
            GpuBuffer::Compat(c) => c.wf(),
            GpuBuffer::Persistent(p) => p.wf(),
        }
    }

    /// The staging backer shadowing the device buffer.
    pub open spec fn backer(&self) -> CpuBacker<T> {
        match self {
            GpuBuffer::Compat(c) => c.backer,
            GpuBuffer::Persistent(p) => p.backer,
        }
    }

    /// The staged elements.
    pub open spec fn elems(&self) -> Seq<T> {
        self.backer().elems()
    }

    /// The tracked dirty interval.
    pub open spec fn dirty(&self) -> Option<(int, int)> {
        self.backer().dirty()
    }

    /// Elements currently allocated on the device.
    pub open spec fn capacity(&self) -> int {
        match self {
            GpuBuffer::Compat(c) => c.gl_buffer_size as int,
            GpuBuffer::Persistent(p) => p.gl_buffer_size as int,
        }
    }

    /// Whether a device buffer exists.
    pub open spec fn has_device(&self) -> bool {
        match self {
            GpuBuffer::Compat(c) => c.has_gl_buffer,
            GpuBuffer::Persistent(p) => p.has_gl_buffer,
        }
    }

    /// Whether the device buffer was (re)created since the flag was last
    /// cleared.
    pub open spec fn changed(&self) -> bool {
        match self {
            GpuBuffer::Compat(c) => c.backing_buffer_changed,
            GpuBuffer::Persistent(p) => p.backing_buffer_changed,
        }
    }

    /// Whether a fence is outstanding (always false for the compat
    /// strategy, whose uploads complete synchronously).
    pub open spec fn fence(&self) -> bool {
        match self {
            GpuBuffer::Compat(_) => false,
            GpuBuffer::Persistent(p) => p.flush_fence,
        }
    }

    pub open spec fn is_persistent(&self) -> bool {
        self is Persistent
    }

    /// The binding point the buffer was created for.
    pub open spec fn target(&self) -> BufferTarget {
        match self {
            GpuBuffer::Compat(c) => c.buffer_type,
            GpuBuffer::Persistent(p) => p.buffer_type,
        }
    }

    /// Whether a write may proceed: no fence from an earlier flush may be
    /// outstanding over the mapped region the write could land in.
    pub open spec fn ready_for_write(&self) -> bool {
        !self.fence()
    }

    /// The staged element count.
    pub fn len(&self) -> (r: usize)
        ensures
            r == self.elems().len(),
    {
        match self {
            GpuBuffer::Compat(c) => c.backer.len(),
            GpuBuffer::Persistent(p) => p.backer.len(),
        }
    }

    /// Borrow the staged elements (the upload source for a flush).
    pub fn elements(&self) -> (r: &Vec<T>)
        ensures
            r@ == self.elems(),
    {
        match self {
            GpuBuffer::Compat(c) => c.backer.elements(),
            GpuBuffer::Persistent(p) => p.backer.elements(),
        }
    }

    /// Check if the underlying device buffer exists.
    pub fn has_backing_buffer(&self) -> (r: bool)
        ensures
            r == self.has_device(),
    {
        match self {
            GpuBuffer::Compat(c) => c.has_gl_buffer,
            GpuBuffer::Persistent(p) => p.has_gl_buffer,
        }
    }

    /// Check if the device buffer has been (re)created since the flag was
    /// last cleared.
    pub fn backing_buffer_changed(&self) -> (r: bool)
        ensures
            r == self.changed(),
    {
        match self {
            GpuBuffer::Compat(c) => c.backing_buffer_changed,
            GpuBuffer::Persistent(p) => p.backing_buffer_changed,
        }
    }

    /// Clear the recreation flag once attribute bindings were reconfigured.
    pub fn clear_buffer_changed(&mut self)
        ensures
            !final(self).changed(),
            final(self).backer() == old(self).backer(),
            final(self).capacity() == old(self).capacity(),
            final(self).has_device() == old(self).has_device(),
            final(self).fence() == old(self).fence(),
            final(self).is_persistent() == old(self).is_persistent(),
            final(self).target() == old(self).target(),
            old(self).wf() ==> final(self).wf(),
    {
        match self {
            GpuBuffer::Compat(c) => c.backing_buffer_changed = false,
            GpuBuffer::Persistent(p) => p.backing_buffer_changed = false,
        }
    }

    /// Prepare for writing; on the persistent strategy this drains the
    /// previous cycle's fence, and the result says whether a wait happened.
    pub fn prepare_write(&mut self) -> (waited: bool)
        ensures
            *final(self) == buf_after_sync(*old(self)),
            waited == old(self).fence(),
            final(self).ready_for_write(),
    {
        match self {
            GpuBuffer::Compat(c) => {
                c.prepare_write();
                false
            },
            GpuBuffer::Persistent(p) => p.prepare_write(),
        }
    }

    /// Decide the device operation bringing the device buffer up to date
    /// with the staging state, and clear the dirty range.
    pub fn begin_flush(&mut self) -> (op: Option<FlushOp>)
        requires
            old(self).wf(),
        ensures
            *final(self) == buf_after_flush(*old(self)),
            op == buf_flush_op(*old(self)),
            final(self).wf(),
    {
        match self {
            GpuBuffer::Compat(c) => c.begin_flush(),
            GpuBuffer::Persistent(p) => p.begin_flush(),
        }
    }

    /// Wait for the flush to complete: the result says whether the caller
    /// must block on a fence (it must then discard the fence).
    pub fn sync_flush(&mut self) -> (waited: bool)
        ensures
            *final(self) == buf_after_sync(*old(self)),
            waited == old(self).fence(),
            final(self).ready_for_write(),
    {
        match self {
            GpuBuffer::Compat(c) => {
                c.sync_flush();
                false
            },
            GpuBuffer::Persistent(p) => p.sync_flush(),
        }
    }
}

impl<T: Copy> GpuBuffer<T> {
    /// Stage a batch of elements at `offset`; the returned range, if any,
    /// must be copied into the persistently mapped region immediately.
    pub fn write(&mut self, offset: usize, data: &[T]) -> (mapped: Option<MappedWrite>)
        requires
            old(self).wf(),
            old(self).ready_for_write(),
            offset <= old(self).elems().len(),
            offset + data@.len() <= usize::MAX,
        ensures
            final(self).elems() == write_elems(old(self).elems(), offset as int, data@),
            final(self).dirty() == merge_dirty(
                old(self).dirty(),
                offset as int,
                offset + data@.len(),
            ),
            final(self).backer().reallocated == (old(self).backer().reallocated
                || offset + data@.len() > old(self).elems().len()),
            final(self).capacity() == old(self).capacity(),
            final(self).has_device() == old(self).has_device(),
            final(self).changed() == old(self).changed(),
            final(self).fence() == old(self).fence(),
            final(self).is_persistent() == old(self).is_persistent(),
            final(self).target() == old(self).target(),
            mapped == if old(self).is_persistent() && old(self).has_device() && offset
                + data@.len() <= old(self).capacity() {
                Some(MappedWrite { start: offset, end: (offset + data@.len()) as usize })
            } else {
                Option::<MappedWrite>::None
            },
            final(self).ready_for_write(),
            final(self).wf(),
    {
        match self {
            GpuBuffer::Compat(c) => {
                c.write(offset, data);
                None
            },
            GpuBuffer::Persistent(p) => p.write(offset, data),
        }
    }

    /// Cut or extend the staging length to exactly `size` elements, filling
    /// new slots with `fill`; the device allocation is untouched.
    pub fn resize(&mut self, size: usize, fill: T)
        requires
            old(self).wf(),
        ensures
            size <= old(self).elems().len() ==> final(self).elems() == old(self).elems().take(
                size as int,
            ),
            size > old(self).elems().len() ==> final(self).elems() == old(self).elems()
                + Seq::<T>::new((size - old(self).elems().len()) as nat, |i: int| fill),
            final(self).dirty() == clamp_dirty(old(self).dirty(), size as int),
            final(self).backer().reallocated == old(self).backer().reallocated,
            final(self).capacity() == old(self).capacity(),
            final(self).has_device() == old(self).has_device(),
            final(self).changed() == old(self).changed(),
            final(self).fence() == old(self).fence(),
            final(self).is_persistent() == old(self).is_persistent(),
            final(self).target() == old(self).target(),
            final(self).wf(),
    {
        match self {
            GpuBuffer::Compat(c) => c.resize(size, fill),
            GpuBuffer::Persistent(p) => p.resize(size, fill),
        }
    }
}

impl<T> GpuBuffer<T> {
    /// Reset the staging length to zero without releasing the device
    /// allocation; the device keeps its (now stale) contents until the next
    /// flush overwrites them or a recreation replaces them.
    pub fn clear(&mut self)
        requires
            old(self).wf(),
        ensures
            final(self).elems() == Seq::<T>::empty(),
            final(self).dirty() is None,
            final(self).backer().reallocated == old(self).backer().reallocated,
            final(self).capacity() == old(self).capacity(),
            final(self).has_device() == old(self).has_device(),
            final(self).changed() == old(self).changed(),
            final(self).fence() == old(self).fence(),
            final(self).is_persistent() == old(self).is_persistent(),
            final(self).target() == old(self).target(),
            final(self).wf(),
    {
        match self {
            GpuBuffer::Compat(c) => c.backer.clear(),
            GpuBuffer::Persistent(p) => p.backer.clear(),
        }
    }
}

/// Create a new [`GpuBuffer`] for `buffer_type`: persistent when the device
/// advertises persistent-mapped buffer storage, compat otherwise.
///
/// The returned buffer has no device allocation yet.
pub fn new<T>(buffer_type: BufferTarget, extensions: crate::GlExtensions) -> (r: GpuBuffer<T>)
    ensures
        r.is_persistent() == extensions.arb_buffer_storage,
        r.target() == buffer_type,
        r.elems() == Seq::<T>::empty(),
        r.dirty() is None,
        !r.backer().reallocated,
        r.capacity() == 0,
        !r.has_device(),
        !r.changed(),
        !r.fence(),
        r.wf(),
{
    if extensions.arb_buffer_storage {
        GpuBuffer::Persistent(PersistentBuffer::new(buffer_type))
    } else {
        GpuBuffer::Compat(CompatBuffer::new(buffer_type))
    }
}

/// Flush idempotence for either strategy: a second flush with no
/// intervening write performs no device operation and leaves the state
/// untouched.
pub proof fn lemma_buf_flush_idempotent<T>(b: GpuBuffer<T>)
    requires
        b.wf(),
        b.elems().len() <= usize::MAX,
    ensures
        buf_flush_op(buf_after_flush(b)) is None,
        buf_after_flush(buf_after_flush(b)) == buf_after_flush(b),
{
    match b {
        GpuBuffer::Compat(c) => lemma_compat_flush_idempotent(c),
        GpuBuffer::Persistent(p) => lemma_flush_idempotent(p),
    }
}

/// Synchronization ordering: whatever fence a flush left outstanding, the
/// next cycle's `prepare_write` (which performs a sync) drains it, so the
/// buffer accepts writes again only after the device is done reading.
pub proof fn lemma_prepare_write_drains<T>(b: PersistentBuffer<T>)
    ensures
        !persistent_after_sync(persistent_after_flush(b)).flush_fence,
        persistent_after_sync(persistent_after_flush(b)).ready_for_write(),
        persistent_after_sync(persistent_after_flush(b)).backer
            == persistent_after_flush(b).backer,
{
}

} // verus!

