use lala::engine::{CoreError, EditorCore};

#[test]
fn test_new_editor_is_empty() {
    let editor = EditorCore::new();
    assert!(editor.is_empty());
    assert_eq!(editor.len(), 0);
}

#[test]
fn test_from_text() {
    let editor = EditorCore::from_text("Hello, World!");
    assert!(!editor.is_empty());
    assert_eq!(editor.len(), 13);
    assert_eq!(editor.to_string(), "Hello, World!");
}

#[test]
fn test_insert_at_beginning() {
    let mut editor = EditorCore::from_text("World!");
    editor.insert(0, "Hello, ").unwrap();
    assert_eq!(editor.to_string(), "Hello, World!");
}

#[test]
fn test_insert_at_middle() {
    let mut editor = EditorCore::from_text("Hello World!");
    editor.insert(5, ",").unwrap();
    assert_eq!(editor.to_string(), "Hello, World!");
}

#[test]
fn test_insert_at_end() {
    let mut editor = EditorCore::from_text("Hello");
    editor.insert(5, ", World!").unwrap();
    assert_eq!(editor.to_string(), "Hello, World!");
}

#[test]
fn test_insert_out_of_bounds() {
    let mut editor = EditorCore::from_text("Hello");
    let result = editor.insert(10, "!");
    assert!(result.is_err());
    match result {
        Err(CoreError::OutOfBounds { index, buffer_len }) => {
            assert_eq!(index, 10);
            assert_eq!(buffer_len, 5);
        }
        _ => panic!("Expected OutOfBounds error"),
    }
}

#[test]
fn tests_test_delete_range() {
    let mut editor = EditorCore::from_text("Hello, World!");
    editor.delete(5, 7).unwrap();
    assert_eq!(editor.to_string(), "HelloWorld!");
}

#[test]
fn test_delete_at_beginning() {
    let mut editor = EditorCore::from_text("Hello, World!");
    editor.delete(0, 7).unwrap();
    assert_eq!(editor.to_string(), "World!");
}

#[test]
fn test_delete_at_end() {
    let mut editor = EditorCore::from_text("Hello, World!");
    editor.delete(7, 13).unwrap();
    assert_eq!(editor.to_string(), "Hello, ");
}

#[test]
fn test_delete_all() {
    let mut editor = EditorCore::from_text("Hello, World!");
    editor.delete(0, 13).unwrap();
    assert_eq!(editor.to_string(), "");
    assert!(editor.is_empty());
}

#[test]
fn test_delete_out_of_bounds() {
    let mut editor = EditorCore::from_text("Hello");
    let result = editor.delete(3, 10);
    assert!(result.is_err());
}

#[test]
fn test_delete_invalid_range() {
    let mut editor = EditorCore::from_text("Hello");
    let result = editor.delete(3, 1);
    assert!(result.is_err());
}

#[test]
fn test_undo_insert() {
    let mut editor = EditorCore::from_text("Hello");
    editor.insert(5, ", World!").unwrap();
    assert_eq!(editor.to_string(), "Hello, World!");

    editor.undo().unwrap();
    assert_eq!(editor.to_string(), "Hello");
}

#[test]
fn test_undo_delete() {
    let mut editor = EditorCore::from_text("Hello, World!");
    editor.delete(5, 7).unwrap();
    assert_eq!(editor.to_string(), "HelloWorld!");

    editor.undo().unwrap();
    assert_eq!(editor.to_string(), "Hello, World!");
}

#[test]
fn test_redo_insert() {
    let mut editor = EditorCore::from_text("Hello");
    editor.insert(5, ", World!").unwrap();
    editor.undo().unwrap();
    assert_eq!(editor.to_string(), "Hello");

    editor.redo().unwrap();
    assert_eq!(editor.to_string(), "Hello, World!");
}

#[test]
fn test_redo_delete() {
    let mut editor = EditorCore::from_text("Hello, World!");
    editor.delete(5, 7).unwrap();
    editor.undo().unwrap();
    assert_eq!(editor.to_string(), "Hello, World!");

    editor.redo().unwrap();
    assert_eq!(editor.to_string(), "HelloWorld!");
}

#[test]
fn test_multiple_undo_redo() {
    let mut editor = EditorCore::from_text("Hello");

    editor.insert(5, " World").unwrap();
    assert_eq!(editor.to_string(), "Hello World");

    editor.insert(11, "!").unwrap();
    assert_eq!(editor.to_string(), "Hello World!");

    editor.delete(5, 6).unwrap();
    assert_eq!(editor.to_string(), "HelloWorld!");

    editor.undo().unwrap();
    assert_eq!(editor.to_string(), "Hello World!");

    editor.undo().unwrap();
    assert_eq!(editor.to_string(), "Hello World");

    editor.undo().unwrap();
    assert_eq!(editor.to_string(), "Hello");

    editor.redo().unwrap();
    assert_eq!(editor.to_string(), "Hello World");

    editor.redo().unwrap();
    assert_eq!(editor.to_string(), "Hello World!");

    editor.redo().unwrap();
    assert_eq!(editor.to_string(), "HelloWorld!");
}

#[test]
fn test_undo_without_history() {
    let mut editor = EditorCore::new();
    let result = editor.undo();
    assert!(result.is_err());
    match result {
        Err(CoreError::HistoryError(_)) => {}
        _ => panic!("Expected HistoryError"),
    }
}

#[test]
fn test_redo_without_history() {
    let mut editor = EditorCore::new();
    let result = editor.redo();
    assert!(result.is_err());
    match result {
        Err(CoreError::HistoryError(_)) => {}
        _ => panic!("Expected HistoryError"),
    }
}

#[test]
fn test_new_operation_clears_redo_stack() {
    let mut editor = EditorCore::from_text("Hello");

    editor.insert(5, " World").unwrap();
    editor.undo().unwrap();
    assert_eq!(editor.to_string(), "Hello");

    editor.insert(5, "!").unwrap();
    assert_eq!(editor.to_string(), "Hello!");

    let result = editor.redo();
    assert!(result.is_err());
}

#[test]
fn test_insert_into_empty_buffer() {
    let mut editor = EditorCore::new();
    editor.insert(0, "First text").unwrap();
    assert_eq!(editor.to_string(), "First text");
}

#[test]
fn test_delete_empty_range() {
    let mut editor = EditorCore::from_text("Hello");
    editor.delete(2, 2).unwrap();
    assert_eq!(editor.to_string(), "Hello");
}

#[test]
fn test_multibyte_characters() {
    let mut editor = EditorCore::from_text("こんにちは");
    assert_eq!(editor.len(), 5);

    editor.insert(5, "、世界！").unwrap();
    assert_eq!(editor.to_string(), "こんにちは、世界！");
    assert_eq!(editor.len(), 9);

    editor.delete(5, 6).unwrap();
    assert_eq!(editor.to_string(), "こんにちは世界！");
    assert_eq!(editor.len(), 8);
}

#[test]
fn test_load_text_clears_history() {
    let mut editor = EditorCore::from_text("old");
    editor.insert(3, "!").unwrap();
    editor.load_text("new document");
    assert_eq!(editor.to_string(), "new document");
    assert!(editor.undo().is_err());
    assert!(editor.redo().is_err());
}
