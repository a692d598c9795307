use gl_painter::upload::buffer::{CpuBacker, DirtyRange};

#[test]
fn write_appends_and_marks_dirty() {
    let mut b: CpuBacker<u32> = CpuBacker::new();
    b.write(0, &[10, 20, 30]);
    assert_eq!(b.elements().as_slice(), &[10, 20, 30]);
    assert_eq!(b.dirty_range(), Some(DirtyRange { start: 0, end: 3 }));
    assert!(b.reallocated);
}

#[test]
fn write_in_place_overwrites() {
    let mut b: CpuBacker<u32> = CpuBacker::new();
    b.write(0, &[1, 2, 3, 4]);
    b.modified_range = None;
    b.reallocated = false;
    b.write(1, &[9, 9]);
    assert_eq!(b.elements().as_slice(), &[1, 9, 9, 4]);
    assert_eq!(b.dirty_range(), Some(DirtyRange { start: 1, end: 3 }));
    assert!(!b.reallocated);
}

#[test]
fn dirty_ranges_merge_to_min_max() {
    // the tracked range is [min(offset_i), max(offset_i + len_i)) over all
    // writes since the last clear
    let mut b: CpuBacker<u8> = CpuBacker::new();
    b.write(0, &[0; 16]);
    b.modified_range = None;
    b.write(6, &[1, 1]);
    b.write(2, &[2]);
    b.write(11, &[3, 3, 3]);
    b.write(4, &[4]);
    assert_eq!(b.dirty_range(), Some(DirtyRange { start: 2, end: 14 }));
}

#[test]
fn grow_keeps_prefix_and_drops_tail() {
    let mut b: CpuBacker<u16> = CpuBacker::new();
    b.write(0, &[1, 2, 3]);
    // a write reaching past the end grows to exactly offset + len
    b.write(2, &[7, 8]);
    assert_eq!(b.elements().as_slice(), &[1, 2, 7, 8]);
    assert_eq!(b.dirty_range(), Some(DirtyRange { start: 0, end: 4 }));
}

#[test]
fn resize_truncates_and_clamps_dirty() {
    let mut b: CpuBacker<u32> = CpuBacker::new();
    b.write(0, &[1, 2, 3, 4, 5]);
    b.resize(2, 0);
    assert_eq!(b.elements().as_slice(), &[1, 2]);
    assert_eq!(b.dirty_range(), Some(DirtyRange { start: 0, end: 2 }));
    b.resize(4, 9);
    assert_eq!(b.elements().as_slice(), &[1, 2, 9, 9]);
    // zero-extension does not mark the new slots dirty by itself
    assert_eq!(b.dirty_range(), Some(DirtyRange { start: 0, end: 2 }));
}

#[test]
fn clear_resets_length_and_dirty() {
    let mut b: CpuBacker<u32> = CpuBacker::new();
    b.write(0, &[1, 2, 3]);
    b.clear();
    assert_eq!(b.len(), 0);
    assert_eq!(b.dirty_range(), None);
}
