use shader_reload::diagnostic::ShaderStage;
use shader_reload::watch::{coalesce, ChangeKind, WatchEvent};

fn ev(source: ShaderStage, kind: ChangeKind) -> WatchEvent {
    WatchEvent { source, kind }
}

#[test]
fn coalesce_drops_repeats() {
    let a = ev(ShaderStage::Fragment, ChangeKind::ContentModified);
    let b = ev(ShaderStage::Vertex, ChangeKind::ContentModified);
    let m = ev(ShaderStage::Fragment, ChangeKind::MetadataOnly);
    let r = coalesce(&vec![a, a, b, a, m, b]);
    assert_eq!(r, vec![a, b, m]);
}

#[test]
fn coalesce_empty() {
    assert!(coalesce(&Vec::new()).is_empty());
}

#[test]
fn content_change_detection() {
    assert!(ev(ShaderStage::Vertex, ChangeKind::ContentModified).changes_content());
    assert!(!ev(ShaderStage::Vertex, ChangeKind::MetadataOnly).changes_content());
    assert!(!ev(ShaderStage::Fragment, ChangeKind::Other).changes_content());
}
