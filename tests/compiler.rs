use shader_reload::compiler::{
    contains_nul, contains_text, convert_shader, diagnose, load_vertex_shader, ToolchainError,
    SPIRV_MAGIC,
};
use shader_reload::diagnostic::{DiagnosticKind, ShaderStage, SourceSpan};

#[test]
fn vertex_source_is_passed_through() {
    let src = load_vertex_shader("void main() {}").unwrap();
    assert_eq!(src.text, "void main() {}");
    assert_eq!(src.stage, ShaderStage::Vertex);
}

#[test]
fn vertex_source_with_nul_is_refused() {
    let d = load_vertex_shader("void\0main").unwrap_err();
    assert_eq!(d.kind, DiagnosticKind::ParseError);
    assert!(!d.message.is_empty());
}

#[test]
fn nul_detection() {
    assert!(contains_nul("\0"));
    assert!(contains_nul("ab\0"));
    assert!(!contains_nul(""));
    assert!(!contains_nul("abc"));
}

#[test]
fn spirv_words_become_an_artifact() {
    let words = vec![SPIRV_MAGIC, 0x0001_0000, 0, 12, 0, 7];
    let a = convert_shader(ShaderStage::Fragment, Ok(words.clone())).unwrap();
    assert_eq!(a.stage, ShaderStage::Fragment);
    assert_eq!(a.words, words);
}

#[test]
fn empty_or_foreign_words_are_a_backend_error() {
    let d = convert_shader(ShaderStage::Vertex, Ok(vec![])).unwrap_err();
    assert_eq!(d.kind, DiagnosticKind::BackendError);
    let d = convert_shader(ShaderStage::Vertex, Ok(vec![1, 2, 3, 4, 5])).unwrap_err();
    assert_eq!(d.kind, DiagnosticKind::BackendError);
    assert_eq!(d.message, "the toolchain produced no SPIR-V module");
    assert!(d.span.is_none());
}

#[test]
fn stream_shorter_than_the_header_is_a_backend_error() {
    let d = convert_shader(ShaderStage::Fragment, Ok(vec![SPIRV_MAGIC, 0x0001_0000, 0, 12]))
        .unwrap_err();
    assert_eq!(d.kind, DiagnosticKind::BackendError);
    let a = convert_shader(ShaderStage::Fragment, Ok(vec![SPIRV_MAGIC, 0x0001_0000, 0, 12, 0]))
        .unwrap();
    assert_eq!(a.words.len(), 5);
}

#[test]
fn syntax_error_is_a_parse_error() {
    let e = ToolchainError::Compilation {
        errors: 1,
        message: "shader.glsl:3: error: '' :  syntax error, unexpected SEMICOLON".to_string(),
    };
    let d = diagnose(&e);
    assert_eq!(d.kind, DiagnosticKind::ParseError);
    assert_eq!(d.span, Some(SourceSpan { line: 3, column: None }));
}

#[test]
fn type_error_is_a_validation_error() {
    let e = ToolchainError::Compilation {
        errors: 1,
        message: "shader.glsl:2: error: '=' :  cannot convert from ' const float' to ' temp 4-component vector of float'".to_string(),
    };
    let d = convert_shader(ShaderStage::Fragment, Err(e)).unwrap_err();
    assert_eq!(d.kind, DiagnosticKind::ValidationError);
    assert_eq!(d.span, Some(SourceSpan { line: 2, column: None }));
}

#[test]
fn missing_entry_point_is_a_validation_error() {
    let e = ToolchainError::Compilation {
        errors: 1,
        message: "shader.glsl: error: Linking fragment stage: Missing entry point: Each stage requires one entry point".to_string(),
    };
    let d = diagnose(&e);
    assert_eq!(d.kind, DiagnosticKind::ValidationError);
    assert!(d.span.is_none());
}

#[test]
fn text_search() {
    assert!(contains_text("a syntax error here", "syntax error"));
    assert!(contains_text("abc", ""));
    assert!(contains_text("", ""));
    assert!(!contains_text("", "a"));
    assert!(!contains_text("syntax erro", "syntax error"));
    assert!(contains_text("xx undeclared identifier", "undeclared identifier"));
}

#[test]
fn compilation_failure_is_a_parse_error_with_its_line() {
    let e = ToolchainError::Compilation {
        errors: 1,
        message: "shader.glsl:12: error: 'not_a_keyword' : undeclared identifier".to_string(),
    };
    let d = convert_shader(ShaderStage::Fragment, Err(e)).unwrap_err();
    assert_eq!(d.kind, DiagnosticKind::ParseError);
    assert_eq!(d.message, "shader.glsl:12: error: 'not_a_keyword' : undeclared identifier");
    assert_eq!(d.span, Some(SourceSpan { line: 12, column: None }));
}

#[test]
fn failure_kinds() {
    let cases = [
        (ToolchainError::InvalidStage("bad stage".to_string()), DiagnosticKind::ValidationError),
        (ToolchainError::InvalidAssembly("bad asm".to_string()), DiagnosticKind::ValidationError),
        (ToolchainError::Internal("boom".to_string()), DiagnosticKind::BackendError),
        (ToolchainError::NullResult("none".to_string()), DiagnosticKind::BackendError),
        (ToolchainError::Unavailable, DiagnosticKind::BackendError),
    ];
    for (e, kind) in cases {
        let d = diagnose(&e);
        assert_eq!(d.kind, kind);
        assert!(!d.message.is_empty());
        assert!(d.span.is_none());
    }
}

#[test]
fn empty_toolchain_text_gets_a_message() {
    let e = ToolchainError::Compilation { errors: 2, message: String::new() };
    let d = diagnose(&e);
    assert_eq!(d.kind, DiagnosticKind::ValidationError);
    assert_eq!(d.message, "compilation error");
    assert!(d.span.is_none());
    let d = diagnose(&ToolchainError::Unavailable);
    assert_eq!(d.message, "the shader compiler could not be initialised");
}

#[test]
fn toolchain_text_is_kept() {
    let d = diagnose(&ToolchainError::Internal("out of memory".to_string()));
    assert_eq!(d.message, "out of memory");
}
