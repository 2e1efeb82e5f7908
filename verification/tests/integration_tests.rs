use lala::core_engine::{Buffer, BufferId, Position, Range};

#[test]
fn integration_test_test_buffer_creation() {
    let buffer = Buffer::from_string(BufferId(0), String::new(), None);
    assert_eq!(buffer.content(), "");
}

#[test]
fn integration_test_test_buffer_from_string() {
    let text = "Hello, World!";
    let buffer = Buffer::from_string(BufferId(0), text.to_string(), None);
    assert_eq!(buffer.content(), text);
}

#[test]
fn test_buffer_replace() {
    let mut buffer = Buffer::from_string(BufferId(0), "Hello World".to_string(), None);

    // Replace "World" with "Rust"
    let range = Range::new(Position::new(0, 6), Position::new(0, 11));
    buffer.replace_range(range, "Rust").unwrap();
    assert_eq!(buffer.content(), "Hello Rust");
}

#[test]
fn test_buffer_multiline() {
    let text = "Line 1\nLine 2\nLine 3\n";
    let buffer = Buffer::from_string(BufferId(0), text.to_string(), None);

    assert_eq!(buffer.content(), text);
    assert_eq!(buffer.line_count(), 4); // 3 lines + empty line at end
}

#[test]
fn test_buffer_line_access() {
    let buffer = Buffer::from_string(BufferId(0), "First\nSecond\nThird".to_string(), None);

    assert_eq!(buffer.line(0), Some("First\n".to_string()));
    assert_eq!(buffer.line(1), Some("Second\n".to_string()));
    assert_eq!(buffer.line(2), Some("Third".to_string()));
    assert_eq!(buffer.line(3), None);
}

#[test]
fn test_buffer_dirty_flag() {
    let mut buffer = Buffer::from_string(BufferId(0), "Test".to_string(), None);

    assert!(!buffer.is_dirty());

    let range = Range::new(Position::new(0, 0), Position::new(0, 1));
    buffer.replace_range(range, "B").unwrap();

    assert!(buffer.is_dirty());

    buffer.mark_clean();
    assert!(!buffer.is_dirty());
}

#[test]
fn test_position_to_char_idx() {
    let buffer = Buffer::from_string(BufferId(0), "Hello\nWorld\n".to_string(), None);

    assert_eq!(buffer.position_to_char_idx(Position::new(0, 0)).unwrap(), 0);
    assert_eq!(buffer.position_to_char_idx(Position::new(0, 5)).unwrap(), 5);
    assert_eq!(buffer.position_to_char_idx(Position::new(1, 0)).unwrap(), 6);
    assert_eq!(buffer.position_to_char_idx(Position::new(1, 5)).unwrap(), 11);
}

#[test]
fn test_empty_buffer_line_count() {
    let buffer = Buffer::from_string(BufferId(0), String::new(), None);

    assert_eq!(buffer.line_count(), 1);
}

#[test]
fn test_single_line_no_newline() {
    let buffer = Buffer::from_string(BufferId(0), "Single line".to_string(), None);

    assert_eq!(buffer.line_count(), 1);
    assert_eq!(buffer.content(), "Single line");
}

#[test]
fn test_manual_search_and_replace_workflow() {
    let mut buffer = Buffer::from_string(BufferId(0), "foo bar foo baz".to_string(), None);

    // Manually find and replace first "foo"
    let range1 = Range::new(Position::new(0, 0), Position::new(0, 3));
    buffer.replace_range(range1, "qux").unwrap();

    assert_eq!(buffer.content(), "qux bar foo baz");

    // Manually find and replace second "foo"
    let range2 = Range::new(Position::new(0, 8), Position::new(0, 11));
    buffer.replace_range(range2, "qux").unwrap();

    assert_eq!(buffer.content(), "qux bar qux baz");
}

#[test]
fn test_buffer_state_tracking() {
    let mut buffer = Buffer::from_string(BufferId(0), "Original".to_string(), None);

    assert!(!buffer.is_dirty());

    let range1 = Range::new(Position::new(0, 0), Position::new(0, 8));
    buffer.replace_range(range1, "First").unwrap();
    assert!(buffer.is_dirty());
    assert_eq!(buffer.content(), "First");

    buffer.mark_clean();
    assert!(!buffer.is_dirty());

    let range2 = Range::new(Position::new(0, 0), Position::new(0, 5));
    buffer.replace_range(range2, "Second").unwrap();
    assert!(buffer.is_dirty());
    assert_eq!(buffer.content(), "Second");
}

#[test]
fn test_error_recovery_workflow() {
    let mut buffer = Buffer::from_string(BufferId(0), "Test content".to_string(), None);

    let invalid_range = Range::new(Position::new(100, 0), Position::new(100, 5));
    let result = buffer.replace_range(invalid_range, "X");

    assert!(result.is_err());

    // The buffer remains unchanged.
    assert_eq!(buffer.content(), "Test content");
    assert!(!buffer.is_dirty());

    // A valid operation still works.
    let valid_range = Range::new(Position::new(0, 0), Position::new(0, 4));
    let result = buffer.replace_range(valid_range, "Best");

    assert!(result.is_ok());
    assert_eq!(buffer.content(), "Best content");
}

#[test]
fn test_multiple_buffers() {
    let mut buffers = vec![];

    for i in 0..10 {
        let buffer = Buffer::from_string(BufferId(i), format!("Buffer {i}"), None);
        buffers.push(buffer);
    }

    for (i, buffer) in buffers.iter().enumerate() {
        assert_eq!(buffer.content(), format!("Buffer {i}"));
    }

    let range = Range::new(Position::new(0, 0), Position::new(0, 8));
    buffers[5].replace_range(range, "Modified Buffer 5").unwrap();

    assert_eq!(buffers[5].content(), "Modified Buffer 5");
    assert_eq!(buffers[4].content(), "Buffer 4");
}
