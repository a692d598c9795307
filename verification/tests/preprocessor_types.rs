use gl_painter::{LineId, PreprocError, PreprocErrorType, SourceSpan};

#[test]
fn line_ids_name_their_file() {
    let root = LineId::root(12);
    assert_eq!(root.file, None);
    assert_eq!(root.line, 12);
    let inc = LineId::included("include.glsl".to_owned(), 3);
    assert_eq!(inc.file.as_deref(), Some("include.glsl"));
    assert_eq!(inc.line, 3);
}

#[test]
fn errors_carry_their_span() {
    let span = SourceSpan::new(LineId::root(4), "@match use_ssbo".to_owned());
    let err = PreprocError::new(
        PreprocErrorType::UndefinedTarget("use_ssbo".to_owned()),
        span,
    );
    assert_eq!(err.span.line.line, 4);
    assert_eq!(err.span.snip, "@match use_ssbo");
    match err.ty {
        PreprocErrorType::UndefinedTarget(name) => assert_eq!(name, "use_ssbo"),
        _ => panic!("expected the undefined-target error"),
    }
}

#[test]
fn error_variants_cover_directive_faults() {
    // one value of each category the preprocessor reports
    let variants = vec![
        PreprocErrorType::UnknownDirective,
        PreprocErrorType::Malformed("missing match target"),
        PreprocErrorType::UndefinedTarget("use_ssbo".to_owned()),
        PreprocErrorType::MissedCase("compat".to_owned()),
        PreprocErrorType::DuplicateCase("ssbo".to_owned()),
        PreprocErrorType::Undefined("color".to_owned()),
        PreprocErrorType::Include("include.glsl".to_owned(), "not found".to_owned()),
        PreprocErrorType::Other("unterminated directive"),
    ];
    assert_eq!(variants.len(), 8);
}
