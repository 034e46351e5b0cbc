use shader_reload::position::line_in_message;

#[test]
fn line_from_toolchain_message() {
    assert_eq!(line_in_message("shader.glsl:12: error: 'x' : undeclared identifier"), Some(12));
    assert_eq!(line_in_message("a:0:"), Some(0));
    assert_eq!(line_in_message("a:4294967295:b"), Some(4294967295));
}

#[test]
fn no_line_in_message() {
    assert_eq!(line_in_message(""), None);
    assert_eq!(line_in_message("no colon here"), None);
    assert_eq!(line_in_message("one: colon"), None);
    assert_eq!(line_in_message("a::b"), None);
    assert_eq!(line_in_message("a:1x:b"), None);
    assert_eq!(line_in_message("a: 1:b"), None);
    assert_eq!(line_in_message("a:4294967296:b"), None);
    assert_eq!(line_in_message("a:99999999999999999999999:b"), None);
}
