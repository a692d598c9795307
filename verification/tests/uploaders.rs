use gl_painter::shader::ShaderProgram;
use gl_painter::upload::attribute::{VertexAttribute, GL_UNSIGNED_INT};
use gl_painter::upload::buffer::GpuBuffer;
use gl_painter::upload::compat::{CompatUploader, CompatVertex};
use gl_painter::upload::ssbo::{SsboUploader, SsboVertex};
use gl_painter::upload::{Uploader, GL_TRIANGLES};
use gl_painter::GlExtensions;

fn attrs() -> Vec<VertexAttribute> {
    // one two-component attribute of four-byte components
    vec![VertexAttribute::new(0x1406, 2, 4, false)]
}

#[test]
fn triangle_upload_cycle() {
    // one triangle drawable: 3 vertices, local indices [0, 1, 2]; after
    // write + flush + upload the draw requests 3 unsigned-int indices
    let mut up: CompatUploader<u32, u64> = CompatUploader::new(
        GlExtensions::new(false),
        ShaderProgram { program_object: 7 },
        GL_TRIANGLES,
        attrs(),
        Vec::new(),
    );
    up.prepare_write();
    up.write(5, &[100, 200, 300], &[0, 1, 2]);
    let ops = up.begin_flush();
    assert!(ops.0.is_some() && ops.1.is_some());
    let plan = up.upload();
    assert_eq!(up.vertex_buffer.len(), 3);
    assert_eq!(up.index_buffer.len(), 3);
    assert_eq!(plan.draw.count, 3);
    assert_eq!(plan.draw.index_type, GL_UNSIGNED_INT);
    assert_eq!(plan.draw.mode, GL_TRIANGLES);
    assert_eq!(plan.program, 7);
    assert!(plan.bind.proceed);
    assert!(plan.bind.create_vao);
    assert!(plan.bind.attributes.is_some());
}

#[test]
fn indices_rebased_by_prior_vertex_count() {
    // append/rebase: drawable B's indices end up shifted by exactly
    // drawable A's vertex count
    let mut up: CompatUploader<u8, u16> = CompatUploader::new(
        GlExtensions::new(false),
        ShaderProgram { program_object: 1 },
        GL_TRIANGLES,
        attrs(),
        Vec::new(),
    );
    up.prepare_write();
    up.write(1, &[10, 11, 12], &[0, 1, 2]);
    up.write(2, &[20, 21, 22, 23], &[0, 2, 1, 3]);
    let indices: Vec<u32> = up.index_buffer.elements().clone();
    assert_eq!(indices, vec![0, 1, 2, 3, 5, 4, 6]);
}

#[test]
fn compat_layout_interleaves_drawable_data() {
    // every vertex record carries a full copy of its drawable's data
    let mut up: CompatUploader<u8, u16> = CompatUploader::new(
        GlExtensions::new(false),
        ShaderProgram { program_object: 1 },
        GL_TRIANGLES,
        attrs(),
        Vec::new(),
    );
    up.prepare_write();
    up.write(7, &[1, 2], &[0, 1]);
    up.write(9, &[3], &[0]);
    let vertices: &Vec<CompatVertex<u8, u16>> = up.vertex_buffer.elements();
    assert_eq!(
        vertices.as_slice(),
        &[
            CompatVertex { vertex: 1, drawable_data: 7 },
            CompatVertex { vertex: 2, drawable_data: 7 },
            CompatVertex { vertex: 3, drawable_data: 9 },
        ]
    );
}

#[test]
fn ssbo_layout_tags_vertices_with_slot() {
    // storage-buffer mode: each vertex carries the 4-byte index of its
    // drawable's slot in the storage buffer (0, 1, 2, ...)
    let mut up: SsboUploader<u8, u16> = SsboUploader::new(
        GlExtensions::new(false),
        ShaderProgram { program_object: 1 },
        GL_TRIANGLES,
        attrs(),
    );
    up.prepare_write();
    up.write(7, &[1, 2], &[0, 1]);
    up.write(9, &[3], &[0]);
    let vertices: &Vec<SsboVertex<u16>> = up.vertex_buffer.elements();
    assert_eq!(
        vertices.as_slice(),
        &[
            SsboVertex { vertex: 1, ssbo_index: 0 },
            SsboVertex { vertex: 2, ssbo_index: 0 },
            SsboVertex { vertex: 3, ssbo_index: 1 },
        ]
    );
    assert_eq!(up.storage_buffer.elements().as_slice(), &[7, 9]);
    assert_eq!(up.index_buffer.elements().as_slice(), &[0, 1, 2]);
}

#[test]
fn ssbo_upload_binds_storage_slot_zero() {
    let mut up: SsboUploader<u8, u16> = SsboUploader::new(
        GlExtensions::new(true),
        ShaderProgram { program_object: 3 },
        GL_TRIANGLES,
        attrs(),
    );
    up.prepare_write();
    up.write(1, &[1, 2, 3], &[0, 1, 2]);
    up.begin_flush();
    let plan = up.upload();
    assert_eq!(plan.storage_slot, 0);
    assert_eq!(plan.program, 3);
    assert_eq!(plan.draw.count, 3);
    // the vertex-array object exists from the first successful bind on
    assert!(up.vao_exists);
}

#[test]
fn clear_restarts_staging_at_zero() {
    // clear() resets the staging length; the next write appends from index
    // 0 again while the device allocation keeps its stale contents
    let mut up: CompatUploader<u8, u16> = CompatUploader::new(
        GlExtensions::new(true),
        ShaderProgram { program_object: 1 },
        GL_TRIANGLES,
        attrs(),
        Vec::new(),
    );
    up.prepare_write();
    up.write(7, &[1, 2, 3], &[0, 1, 2]);
    up.begin_flush();
    up.sync_flush();
    up.clear();
    assert_eq!(up.vertex_buffer.len(), 0);
    assert_eq!(up.index_buffer.len(), 0);
    match &up.vertex_buffer {
        GpuBuffer::Persistent(p) => assert_eq!(p.gl_buffer_size, 3),
        GpuBuffer::Compat(_) => panic!("expected the persistent strategy"),
    }
    up.prepare_write();
    up.write(8, &[4], &[0]);
    assert_eq!(up.index_buffer.elements().as_slice(), &[0]);
    let vertices: &Vec<CompatVertex<u8, u16>> = up.vertex_buffer.elements();
    assert_eq!(vertices.as_slice(), &[CompatVertex { vertex: 4, drawable_data: 8 }]);
}

#[test]
fn bind_waits_for_device_buffers() {
    // binding does nothing while a device buffer is still missing
    let mut up: CompatUploader<u8, u16> = CompatUploader::new(
        GlExtensions::new(false),
        ShaderProgram { program_object: 1 },
        GL_TRIANGLES,
        attrs(),
        Vec::new(),
    );
    let plan = up.bind();
    assert!(!plan.proceed);
    assert!(!up.vao_exists);
    up.prepare_write();
    up.write(1, &[1], &[0]);
    up.begin_flush();
    let plan = up.bind();
    assert!(plan.proceed);
    assert!(plan.create_vao);
    assert!(plan.attributes.is_some());
    // a second bind with nothing recreated reconfigures nothing
    let plan = up.bind();
    assert!(plan.proceed);
    assert!(!plan.create_vao);
    assert!(plan.attributes.is_none());
}

#[test]
fn persistent_uploader_reports_mapped_copies() {
    let mut up: CompatUploader<u8, u16> = CompatUploader::new(
        GlExtensions::new(true),
        ShaderProgram { program_object: 1 },
        GL_TRIANGLES,
        attrs(),
        Vec::new(),
    );
    up.prepare_write();
    // nothing mapped yet: no immediate copies
    let (mv, mi) = up.write(7, &[1, 2, 3], &[0, 1, 2]);
    assert!(mv.is_none() && mi.is_none());
    up.begin_flush();
    up.sync_flush();
    up.clear();
    up.prepare_write();
    // the device allocations exist and the batch fits: both buffers want
    // the new elements copied into their mapped regions immediately
    let (mv, mi) = up.write(8, &[4, 5, 6], &[0, 1, 2]);
    let mv = mv.expect("vertex batch fits the mapped region");
    let mi = mi.expect("index batch fits the mapped region");
    assert_eq!((mv.start, mv.end), (0, 3));
    assert_eq!((mi.start, mi.end), (0, 3));
}

#[test]
fn legacy_bind_needs_both_device_buffers() {
    let mut up: Uploader<u64> = Uploader::new(GL_TRIANGLES, attrs(), GlExtensions::new(false));
    assert!(up.bind().is_none());
    up.write_vertices(0, &[10]);
    up.write_indices(0, &[0]);
    assert!(up.bind().is_none());
    up.begin_flush();
    assert!(up.bind().is_some());
    // flags cleared: nothing to reconfigure the second time
    assert!(up.bind().is_none());
}

#[test]
fn legacy_uploader_cycle() {
    let mut up: Uploader<u64> = Uploader::new(GL_TRIANGLES, attrs(), GlExtensions::new(false));
    up.prepare_write();
    up.write_vertices(0, &[10, 20, 30]);
    up.write_indices(0, &[0, 1, 2]);
    up.begin_flush();
    let plan = up.upload();
    assert_eq!(plan.draw.count, 3);
    assert_eq!(plan.draw.index_type, GL_UNSIGNED_INT);
    // the buffers were just created, so the attributes get configured
    assert!(plan.attributes.is_some());
    let pointers = plan.attributes.unwrap();
    assert_eq!(pointers.len(), 1);
    assert_eq!(pointers[0].stride, 8);
    assert_eq!(pointers[0].offset, 0);
}
