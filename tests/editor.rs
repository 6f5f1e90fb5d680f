use repeat::editor::RepeatEditor;

#[test]
fn window_geometry() {
    let editor = RepeatEditor::new();
    assert_eq!(editor.position(), (0, 0));
    assert_eq!(editor.size(), (400, 200));
}

#[test]
fn opens_once_until_closed() {
    let mut editor = RepeatEditor::new();
    assert!(!editor.is_open());
    assert!(editor.open());
    assert!(editor.is_open());
    assert!(!editor.open());
    editor.close();
    assert!(!editor.is_open());
    assert!(editor.open());
}
