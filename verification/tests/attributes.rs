use gl_painter::upload::attribute::{
    attribute_pointers, chain_attributes, VertexAttribute, GL_UNSIGNED_INT,
};

const GL_FLOAT: u32 = 0x1406;

#[test]
fn stride_and_offsets_from_attribute_list() {
    // vec2 of f32, vec4 of f32, one u32: stride 8 + 16 + 4 = 28,
    // offsets 0, 8, 24
    let attrs = vec![
        VertexAttribute::new(GL_FLOAT, 2, 4, false),
        VertexAttribute::new(GL_FLOAT, 4, 4, false),
        VertexAttribute::new(GL_UNSIGNED_INT, 1, 4, true),
    ];
    let pointers = attribute_pointers(&attrs);
    assert_eq!(pointers.len(), 3);
    for (i, p) in pointers.iter().enumerate() {
        assert_eq!(p.index, i as u32);
        assert_eq!(p.stride, 28);
    }
    assert_eq!(pointers[0].offset, 0);
    assert_eq!(pointers[1].offset, 8);
    assert_eq!(pointers[2].offset, 24);
    assert!(!pointers[0].is_integer);
    assert!(pointers[2].is_integer);
    assert_eq!(pointers[1].count, 4);
    assert_eq!(pointers[1].ty, GL_FLOAT);
}

#[test]
fn padding_shifts_offsets_and_widens_stride() {
    let attrs = vec![
        VertexAttribute::new(GL_FLOAT, 1, 4, false),
        VertexAttribute { ty: GL_FLOAT, count: 1, ty_size: 4, is_integer: false, padding: 4 },
    ];
    let pointers = attribute_pointers(&attrs);
    assert_eq!(pointers[0].stride, 12);
    assert_eq!(pointers[0].offset, 0);
    // the second attribute starts after its own leading padding
    assert_eq!(pointers[1].offset, 8);
}

#[test]
fn chaining_concatenates_lists() {
    let a = vec![VertexAttribute::new(GL_FLOAT, 2, 4, false)];
    let b = vec![VertexAttribute::new(GL_UNSIGNED_INT, 1, 4, true)];
    let c = chain_attributes(&a, &b);
    assert_eq!(c.len(), 2);
    assert_eq!(c[0], a[0]);
    assert_eq!(c[1], b[0]);
}

#[test]
fn empty_list_has_zero_stride() {
    let pointers = attribute_pointers(&Vec::new());
    assert!(pointers.is_empty());
}
