use lala::editor::Editor;

#[test]
fn test_new_editor() {
    let editor = Editor::new();
    assert_eq!(editor.text(), "");
    assert_eq!(editor.cursor().position(), 0);
    assert!(!editor.is_modified());
}

#[test]
fn editor_test_insert_char() {
    let mut editor = Editor::new();
    editor.insert_char('h');
    editor.insert_char('i');
    assert_eq!(editor.text(), "hi");
    assert_eq!(editor.cursor().position(), 2);
    assert!(editor.is_modified());
}

#[test]
fn test_delete_before_cursor() {
    let mut editor = Editor::with_text("hello");
    editor.set_cursor_position(5);
    editor.delete_before_cursor();
    assert_eq!(editor.text(), "hell");
    assert_eq!(editor.cursor().position(), 4);
}

#[test]
fn editor_test_undo_redo() {
    let mut editor = Editor::new();
    editor.insert_char('a');
    editor.insert_char('b');
    assert_eq!(editor.text(), "ab");

    editor.undo();
    assert_eq!(editor.text(), "a");

    editor.undo();
    assert_eq!(editor.text(), "");

    editor.redo();
    assert_eq!(editor.text(), "a");

    editor.redo();
    assert_eq!(editor.text(), "ab");
}

// Scenario: insert at the end, undo, redo.
#[test]
fn test_scenario_insert_undo_redo() {
    let mut editor = Editor::with_text("hello");
    editor.set_cursor_position(5);
    editor.insert_text("!");
    assert_eq!(editor.text(), "hello!");
    assert!(editor.undo());
    assert_eq!(editor.text(), "hello");
    assert_eq!(editor.cursor().position(), 5);
    assert!(editor.redo());
    assert_eq!(editor.text(), "hello!");
    assert_eq!(editor.cursor().position(), 6);
}

// Scenario: delete a range, undo, redo.
#[test]
fn test_scenario_delete_undo_redo() {
    let mut editor = Editor::with_text("hello world");
    editor.delete_range(5..11);
    assert_eq!(editor.text(), "hello");
    assert!(editor.undo());
    assert_eq!(editor.text(), "hello world");
    assert!(editor.redo());
    assert_eq!(editor.text(), "hello");
}

// Scenario: two inserts, undo both, redo both.
#[test]
fn test_scenario_two_inserts() {
    let mut editor = Editor::new();
    editor.insert_text("a");
    editor.insert_text("b");
    assert_eq!(editor.text(), "ab");
    assert!(editor.undo());
    assert!(editor.undo());
    assert_eq!(editor.text(), "");
    assert!(editor.redo());
    assert!(editor.redo());
    assert_eq!(editor.text(), "ab");
}

// Scenario: all indices are character-based, not byte-based.
#[test]
fn test_scenario_multibyte_editing() {
    let mut editor = Editor::with_text("こんにちは");
    editor.set_cursor_position(5);
    editor.insert_text("、世界！");
    assert_eq!(editor.text(), "こんにちは、世界！");
    editor.delete_range(5..6);
    assert_eq!(editor.text(), "こんにちは世界！");
    assert!(editor.undo());
    assert_eq!(editor.text(), "こんにちは、世界！");
    assert!(editor.undo());
    assert_eq!(editor.text(), "こんにちは");
    assert_eq!(editor.cursor().position(), 5);
}

// The cursor is clamped: any requested position past the end lands at the
// end.
#[test]
fn test_set_cursor_position_clamps() {
    let mut editor = Editor::with_text("hello");
    editor.set_cursor_position(100);
    assert_eq!(editor.cursor().position(), 5);
    editor.set_cursor_position(3);
    assert_eq!(editor.cursor().position(), 3);
}

#[test]
fn test_editor_delete_at_cursor() {
    let mut editor = Editor::with_text("hello");
    editor.set_cursor_position(1);
    editor.delete_at_cursor();
    assert_eq!(editor.text(), "hllo");
    assert_eq!(editor.cursor().position(), 1);
}

#[test]
fn test_editor_delete_range_out_of_bounds_is_no_op() {
    let mut editor = Editor::with_text("hello");
    editor.delete_range(3..2);
    editor.delete_range(2..9);
    assert_eq!(editor.text(), "hello");
    assert!(!editor.is_modified());
    assert!(!editor.can_undo());
}

#[test]
fn test_editor_undo_redo_exhausted() {
    let mut editor = Editor::with_text("x");
    assert!(!editor.undo());
    assert!(!editor.redo());
    assert_eq!(editor.text(), "x");
}

#[test]
fn test_editor_move_cursor() {
    let mut editor = Editor::with_text("hello");
    editor.move_cursor_forward(3);
    assert_eq!(editor.cursor().position(), 3);
    editor.move_cursor_forward(10);
    assert_eq!(editor.cursor().position(), 5);
    editor.move_cursor_backward(2);
    assert_eq!(editor.cursor().position(), 3);
    editor.move_cursor_backward(10);
    assert_eq!(editor.cursor().position(), 0);
}

#[test]
fn test_editor_loaded_and_note_saved() {
    let editor = Editor::loaded("content", "/tmp/notes.txt");
    assert_eq!(editor.text(), "content");
    assert_eq!(editor.file_path(), Some("/tmp/notes.txt"));
    assert_eq!(editor.file_name(), Some("notes.txt".to_string()));
    assert!(!editor.is_modified());

    let mut editor = editor;
    editor.insert_char('!');
    assert!(editor.is_modified());
    editor.note_saved("/tmp/notes.txt");
    assert!(!editor.is_modified());
}

#[test]
fn test_editor_file_name_without_path() {
    let editor = Editor::new();
    assert_eq!(editor.file_path(), None);
    assert_eq!(editor.file_name(), None);
}

#[test]
fn test_editor_insert_empty_text_records_nothing() {
    let mut editor = Editor::with_text("a");
    editor.insert_text("");
    assert_eq!(editor.text(), "a");
    assert!(!editor.is_modified());
    assert!(!editor.can_undo());
}
