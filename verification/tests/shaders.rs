use gl_painter::{
    GlExtensions, Shader, ShaderCompileError, ShaderLinkError, ShaderProgram, ShaderSource,
    ShaderType,
};

#[test]
fn shader_stage_enumerants() {
    assert_eq!(ShaderType::Vertex.gl_type(), 0x8B31);
    assert_eq!(ShaderType::Fragment.gl_type(), 0x8B30);
}

#[test]
fn compile_outcome_reports_each_failure() {
    // a null handle means creation failed, before any compilation
    let r = Shader::compile_outcome(ShaderType::Vertex, 0, true, String::new());
    assert!(matches!(r, Err(ShaderCompileError::CouldNotCreate)));
    // an unsuccessful status surfaces the driver log
    let r = Shader::compile_outcome(ShaderType::Vertex, 4, false, "bad token".to_owned());
    match r {
        Err(ShaderCompileError::Compile(log)) => assert_eq!(log, "bad token"),
        _ => panic!("expected the compile error with the driver log"),
    }
    // success carries the stage and the handle through
    let s = Shader::compile_outcome(ShaderType::Fragment, 4, true, String::new()).unwrap();
    assert_eq!(s.shader_object, 4);
    assert!(matches!(s.ty, ShaderType::Fragment));
}

#[test]
fn link_check_wants_vertex_then_fragment() {
    let v = Shader { ty: ShaderType::Vertex, shader_object: 1 };
    let f = Shader { ty: ShaderType::Fragment, shader_object: 2 };
    assert!(ShaderProgram::link_check(&v, &f).is_ok());
    assert!(matches!(
        ShaderProgram::link_check(&f, &v),
        Err(ShaderLinkError::InvalidShader)
    ));
    assert!(matches!(
        ShaderProgram::link_check(&v, &v),
        Err(ShaderLinkError::InvalidShader)
    ));
}

#[test]
fn link_outcome_reports_each_failure() {
    let r = ShaderProgram::link_outcome(0, true, String::new());
    assert!(matches!(r, Err(ShaderLinkError::CouldNotCreate)));
    let r = ShaderProgram::link_outcome(3, false, "undefined symbol".to_owned());
    match r {
        Err(ShaderLinkError::Link(log)) => assert_eq!(log, "undefined symbol"),
        _ => panic!("expected the link error with the driver log"),
    }
    let p = ShaderProgram::link_outcome(3, true, String::new()).unwrap();
    assert_eq!(p.program_object, 3);
}

#[test]
fn driver_logs_only_on_log_carrying_errors() {
    let e = ShaderCompileError::Compile("log".to_owned());
    assert_eq!(e.driver_log().map(String::as_str), Some("log"));
    assert!(ShaderCompileError::CouldNotCreate.driver_log().is_none());
    let e = ShaderLinkError::Link("log".to_owned());
    assert_eq!(e.driver_log().map(String::as_str), Some("log"));
    assert!(ShaderLinkError::InvalidShader.driver_log().is_none());
    assert!(ShaderLinkError::CouldNotCreate.driver_log().is_none());
}

#[test]
fn vertex_source_follows_buffer_scheme() {
    let src = ShaderSource {
        vertex_compat: "compat vertex",
        vertex_ssbo: "ssbo vertex",
        fragment: "fragment",
    };
    assert_eq!(src.vertex_source(false), "compat vertex");
    assert_eq!(src.vertex_source(true), "ssbo vertex");
}

#[test]
fn capability_probe_scans_extension_list() {
    let names = vec![
        "GL_ARB_debug_output".to_owned(),
        "GL_ARB_buffer_storage".to_owned(),
        "GL_EXT_texture_filter_anisotropic".to_owned(),
    ];
    assert!(GlExtensions::from_extension_names(&names).arb_buffer_storage);
    let names = vec!["GL_ARB_debug_output".to_owned()];
    assert!(!GlExtensions::from_extension_names(&names).arb_buffer_storage);
    assert!(!GlExtensions::from_extension_names(&Vec::new()).arb_buffer_storage);
}
