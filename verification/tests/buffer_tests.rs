use lala::buffer::TextBuffer;

#[test]
fn test_new_buffer() {
    let buffer = TextBuffer::new();
    assert_eq!(buffer.len_chars(), 0);
    assert!(buffer.is_empty());
}

#[test]
fn test_from_str() {
    let buffer = TextBuffer::from_str("hello\nworld");
    assert_eq!(buffer.len_chars(), 11);
    assert_eq!(buffer.to_string(), "hello\nworld");
}

#[test]
fn buffer_test_insert_char() {
    let mut buffer = TextBuffer::from_str("hllo");
    buffer.insert_char(1, 'e');
    assert_eq!(buffer.to_string(), "hello");
}

#[test]
fn test_insert_text() {
    let mut buffer = TextBuffer::from_str("hllo");
    buffer.insert(1, "e");
    assert_eq!(buffer.to_string(), "hello");
}

#[test]
fn buffer_test_delete_range() {
    let mut buffer = TextBuffer::from_str("hello world");
    buffer.delete_range(5..11);
    assert_eq!(buffer.to_string(), "hello");
}

#[test]
fn test_delete_char() {
    let mut buffer = TextBuffer::from_str("hello");
    buffer.delete_char(1);
    assert_eq!(buffer.to_string(), "hllo");
}

#[test]
fn test_buffer_slice_and_char_at() {
    let buffer = TextBuffer::from_str("hello world");
    assert_eq!(buffer.slice(6..11), "world");
    assert_eq!(buffer.slice(3..2), "");
    assert_eq!(buffer.slice(6..100), "");
    assert_eq!(buffer.char_at(4), Some('o'));
    assert_eq!(buffer.char_at(11), None);
}

#[test]
fn test_buffer_lines() {
    let buffer = TextBuffer::from_str("one\ntwo\n");
    assert_eq!(buffer.len_lines(), 3);
    assert_eq!(buffer.line(0), "one\n");
    assert_eq!(buffer.line(1), "two\n");
    assert_eq!(buffer.line(2), "");
    assert_eq!(buffer.line(3), "");
}

#[test]
fn test_buffer_len_bytes_multibyte() {
    let buffer = TextBuffer::from_str("こんにちは");
    assert_eq!(buffer.len_chars(), 5);
    assert_eq!(buffer.len_bytes(), 15);
}

#[test]
fn test_buffer_out_of_range_edits_are_no_ops() {
    let mut buffer = TextBuffer::from_str("abc");
    buffer.insert(4, "x");
    buffer.insert_char(4, 'x');
    buffer.delete_range(2..5);
    buffer.delete_char(3);
    assert_eq!(buffer.to_string(), "abc");
}

#[test]
fn test_buffer_replace_all() {
    let mut buffer = TextBuffer::from_str("old text");
    buffer.replace_all("new");
    assert_eq!(buffer.to_string(), "new");
    assert_eq!(buffer.len_chars(), 3);
}
