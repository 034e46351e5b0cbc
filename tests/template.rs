use shader_reload::compiler::load_fragment_shader;
use shader_reload::diagnostic::DiagnosticKind;
use shader_reload::template::{contains_placeholder, materialize};

#[test]
fn materialize_replaces_the_placeholder() {
    let r = materialize("void main(){ {content} }", "discard;").unwrap();
    assert_eq!(r, "void main(){ discard; }");
}

#[test]
fn materialize_twice_gives_the_same_text() {
    let template = "uniform float t;\nvoid main() {\n{content}\n}\n";
    let body = "gl_FragColor = vec4(t);";
    let a = materialize(template, body).unwrap();
    let b = materialize(template, body).unwrap();
    assert_eq!(a, b);
}

#[test]
fn materialize_without_placeholder_is_a_template_error() {
    for body in ["", "discard;", "{content}"] {
        let r = materialize("void main(){ discard; }", body);
        let d = r.unwrap_err();
        assert_eq!(d.kind, DiagnosticKind::TemplateError);
        assert_eq!(d.message, "the template holds no {content} placeholder");
        assert!(d.span.is_none());
    }
}

#[test]
fn materialize_empty_template_is_a_template_error() {
    let d = materialize("", "x").unwrap_err();
    assert_eq!(d.kind, DiagnosticKind::TemplateError);
}

#[test]
fn materialize_replaces_every_placeholder() {
    let r = materialize("{content}|{content}", "ab").unwrap();
    assert_eq!(r, "ab|ab");
}

#[test]
fn materialize_does_not_rescan_the_body() {
    let r = materialize("<{content}>", "{content}").unwrap();
    assert_eq!(r, "<{content}>");
}

#[test]
fn materialize_whole_template_placeholder() {
    assert_eq!(materialize("{content}", "x = 1;").unwrap(), "x = 1;");
    assert_eq!(materialize("{content}", "").unwrap(), "");
}

#[test]
fn materialize_keeps_other_braces_and_unicode() {
    let r = materialize("{{ {conten} {content}} é", "ü").unwrap();
    assert_eq!(r, "{{ {conten} ü} é");
}

#[test]
fn placeholder_detection() {
    assert!(contains_placeholder("a{content}b"));
    assert!(!contains_placeholder("a{content b"));
    assert!(!contains_placeholder("{conten}t}"));
    assert!(!contains_placeholder(""));
}

#[test]
fn fragment_source_from_template() {
    let src = load_fragment_shader("void main(){ {content} }", "discard;").unwrap();
    assert_eq!(src.text, "void main(){ discard; }");
    assert_eq!(src.stage, shader_reload::diagnostic::ShaderStage::Fragment);
}

#[test]
fn fragment_source_without_placeholder() {
    let d = load_fragment_shader("void main(){ }", "discard;").unwrap_err();
    assert_eq!(d.kind, DiagnosticKind::TemplateError);
}

#[test]
fn fragment_source_with_nul_body() {
    let d = load_fragment_shader("void main(){ {content} }", "a\0b").unwrap_err();
    assert_eq!(d.kind, DiagnosticKind::ParseError);
    assert!(!d.message.is_empty());
}
