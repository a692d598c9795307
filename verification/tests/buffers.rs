use gl_painter::upload::buffer::{
    new, BufferTarget, CompatBuffer, DirtyRange, FlushOp, GpuBuffer, MappedWrite,
    PersistentBuffer,
};
use gl_painter::GlExtensions;

#[test]
fn factory_picks_strategy_from_capability() {
    let persistent: GpuBuffer<u32> = new(BufferTarget::VertexArray, GlExtensions::new(true));
    assert!(matches!(persistent, GpuBuffer::Persistent(_)));
    let compat: GpuBuffer<u32> = new(BufferTarget::ElementArray, GlExtensions::new(false));
    assert!(matches!(compat, GpuBuffer::Compat(_)));
}

#[test]
fn compat_flush_recreates_then_updates() {
    let mut b: CompatBuffer<u32> = CompatBuffer::new(BufferTarget::VertexArray);
    b.write(0, &[1, 2, 3]);
    // staging outgrew the (absent) device buffer: full recreation
    let op = b.begin_flush();
    assert_eq!(op, Some(FlushOp::Recreate { len: 3 }));
    assert!(b.has_gl_buffer);
    assert!(b.backing_buffer_changed);
    assert_eq!(b.gl_buffer_size, 3);
    // in-place write afterwards: partial update covering the dirty range
    b.write(1, &[9]);
    let op = b.begin_flush();
    assert_eq!(op, Some(FlushOp::Upload { start: 1, end: 2 }));
    assert_eq!(b.gl_buffer_size, 3);
}

#[test]
fn flush_without_write_is_a_no_op() {
    // flush idempotence: the second flush finds a clean buffer
    let mut b: CompatBuffer<u32> = CompatBuffer::new(BufferTarget::VertexArray);
    b.write(0, &[1, 2]);
    assert!(b.begin_flush().is_some());
    assert_eq!(b.begin_flush(), None);

    let mut p: PersistentBuffer<u32> = PersistentBuffer::new(BufferTarget::VertexArray);
    p.write(0, &[1, 2]);
    assert!(p.begin_flush().is_some());
    let fence_before = p.flush_fence;
    assert_eq!(p.begin_flush(), None);
    // and creates no new fence
    assert_eq!(p.flush_fence, fence_before);
}

#[test]
fn persistent_capacity_only_grows() {
    // growth monotonicity: capacity changes only by recreation, never down
    let mut p: PersistentBuffer<u32> = PersistentBuffer::new(BufferTarget::VertexArray);
    p.write(0, &[1, 2, 3, 4]);
    assert_eq!(p.begin_flush(), Some(FlushOp::Recreate { len: 4 }));
    assert_eq!(p.gl_buffer_size, 4);
    // shrinking the staging length does not shrink the device buffer
    p.resize(1, 0);
    assert_eq!(p.gl_buffer_size, 4);
    assert_eq!(p.begin_flush(), None);
    assert_eq!(p.gl_buffer_size, 4);
    // growing past the capacity recreates, to the larger size
    p.prepare_write();
    p.write(1, &[5, 6, 7, 8, 9]);
    assert_eq!(p.begin_flush(), Some(FlushOp::Recreate { len: 6 }));
    assert_eq!(p.gl_buffer_size, 6);
}

#[test]
fn persistent_flush_fences_and_prepare_write_drains() {
    // synchronization ordering: the fence left by a flush is drained by the
    // next cycle's prepare_write before any further write
    let mut p: PersistentBuffer<u32> = PersistentBuffer::new(BufferTarget::VertexArray);
    p.write(0, &[1, 2, 3]);
    p.begin_flush();
    assert!(!p.flush_fence);
    p.prepare_write();
    p.write(0, &[9, 9, 9]);
    let op = p.begin_flush();
    assert_eq!(op, Some(FlushOp::Upload { start: 0, end: 3 }));
    assert!(p.flush_fence);
    let waited = p.prepare_write();
    assert!(waited);
    assert!(!p.flush_fence);
    p.write(0, &[4]);
}

#[test]
fn persistent_in_capacity_write_hits_mapped_region() {
    let mut p: PersistentBuffer<u32> = PersistentBuffer::new(BufferTarget::VertexArray);
    // no device buffer yet: nothing to copy into
    assert_eq!(p.write(0, &[1, 2, 3]), None);
    p.begin_flush();
    // in-capacity write: copied into the mapped region immediately
    let mapped = p.write(1, &[7]);
    assert_eq!(mapped, Some(MappedWrite { start: 1, end: 2 }));
    // a write growing past the capacity is not
    let mapped = p.write(2, &[8, 8, 8]);
    assert_eq!(mapped, None);
}

#[test]
fn compat_sync_flush_never_waits() {
    let mut b: GpuBuffer<u32> = new(BufferTarget::VertexArray, GlExtensions::new(false));
    b.write(0, &[1]);
    b.begin_flush();
    assert!(!b.sync_flush());
}

#[test]
fn buffer_clear_keeps_device_state() {
    let mut b: GpuBuffer<u32> = new(BufferTarget::VertexArray, GlExtensions::new(true));
    b.write(0, &[1, 2, 3]);
    b.begin_flush();
    b.clear();
    assert_eq!(b.len(), 0);
    assert!(b.has_backing_buffer());
    match &b {
        GpuBuffer::Persistent(p) => {
            assert_eq!(p.gl_buffer_size, 3);
            assert_eq!(p.backer.dirty_range(), None);
        },
        GpuBuffer::Compat(_) => panic!("expected the persistent strategy"),
    }
    // the next write appends from offset 0 again
    b.write(0, &[7]);
    match &b {
        GpuBuffer::Persistent(p) => {
            assert_eq!(p.backer.elements().as_slice(), &[7]);
            assert_eq!(p.backer.dirty_range(), Some(DirtyRange { start: 0, end: 1 }));
        },
        GpuBuffer::Compat(_) => panic!("expected the persistent strategy"),
    }
}
