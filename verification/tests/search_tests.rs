use lala::core_engine::{Buffer, BufferId};
use lala::grep::{matches_filter, GrepResult};
use lala::grep_panel::GrepPanel;
use lala::search::{replace_in_buffer, search_in_buffer, SearchOptions};
use lala::search_panel::SearchPanel;

#[test]
fn test_search_literal_case_sensitive() {
    let buffer = Buffer::from_string(
        BufferId(0),
        "Hello World\nHello Rust\nhello world\n".to_string(),
        None,
    );

    let options = SearchOptions { case_sensitive: true, use_regex: false, whole_word: false };

    let results = search_in_buffer(&buffer, "Hello", &options).unwrap();
    assert_eq!(results.len(), 2);
    assert_eq!(results[0].match_text, "Hello");
    assert_eq!(results[1].match_text, "Hello");
}

#[test]
fn test_search_literal_case_insensitive() {
    let buffer = Buffer::from_string(
        BufferId(0),
        "Hello World\nHello Rust\nhello world\n".to_string(),
        None,
    );

    let options = SearchOptions { case_sensitive: false, use_regex: false, whole_word: false };

    let results = search_in_buffer(&buffer, "hello", &options).unwrap();
    assert_eq!(results.len(), 3);
}

#[test]
fn test_search_regex() {
    let buffer = Buffer::from_string(BufferId(0), "t1t t2t t3t test".to_string(), None);

    let options = SearchOptions { case_sensitive: true, use_regex: true, whole_word: false };

    let results = search_in_buffer(&buffer, r"t\dt", &options).unwrap();
    assert_eq!(results.len(), 3);
    assert_eq!(results[0].match_text, "t1t");
    assert_eq!(results[1].match_text, "t2t");
    assert_eq!(results[2].match_text, "t3t");
}

#[test]
fn test_search_regex_invalid() {
    let buffer = Buffer::from_string(BufferId(0), "test".to_string(), None);

    let options = SearchOptions { case_sensitive: true, use_regex: true, whole_word: false };

    let result = search_in_buffer(&buffer, "[invalid", &options);
    assert!(result.is_err());
}

#[test]
fn test_replace_single() {
    let mut buffer = Buffer::from_string(BufferId(0), "Hello World Hello Rust".to_string(), None);

    let options = SearchOptions::default();
    let count = replace_in_buffer(&mut buffer, "Hello", "Hi", &options, false).unwrap();

    assert_eq!(count, 1);
    assert_eq!(buffer.content(), "Hi World Hello Rust");
}

#[test]
fn test_replace_all() {
    let mut buffer = Buffer::from_string(BufferId(0), "Hello World Hello Rust".to_string(), None);

    let options = SearchOptions::default();
    let count = replace_in_buffer(&mut buffer, "Hello", "Hi", &options, true).unwrap();

    assert_eq!(count, 2);
    assert_eq!(buffer.content(), "Hi World Hi Rust");
}

#[test]
fn test_replace_regex() {
    let mut buffer = Buffer::from_string(BufferId(0), "t1t t2t t3t".to_string(), None);

    let options = SearchOptions { case_sensitive: true, use_regex: true, whole_word: false };

    let count = replace_in_buffer(&mut buffer, r"t\dt", "NUM", &options, true).unwrap();

    assert_eq!(count, 3);
    assert_eq!(buffer.content(), "NUM NUM NUM");
}

#[test]
fn test_search_match_positions() {
    let buffer = Buffer::from_string(BufferId(0), "ab\ncabc".to_string(), None);
    let options = SearchOptions::default();

    let results = search_in_buffer(&buffer, "ab", &options).unwrap();
    assert_eq!(results.len(), 2);
    assert_eq!(results[0].range.start.line, 0);
    assert_eq!(results[0].range.start.col, 0);
    assert_eq!(results[0].range.end.col, 2);
    assert_eq!(results[1].range.start.line, 1);
    assert_eq!(results[1].range.start.col, 1);
    assert_eq!(results[1].range.end.col, 3);
}

#[test]
fn test_search_empty_pattern_finds_nothing() {
    let buffer = Buffer::from_string(BufferId(0), "anything".to_string(), None);
    let options = SearchOptions::default();
    let results = search_in_buffer(&buffer, "", &options).unwrap();
    assert!(results.is_empty());

    let mut buffer = buffer;
    let count = replace_in_buffer(&mut buffer, "", "x", &options, true).unwrap();
    assert_eq!(count, 0);
    assert_eq!(buffer.content(), "anything");
}

#[test]
fn test_search_overlapping_matches_are_greedy() {
    let buffer = Buffer::from_string(BufferId(0), "aaaa".to_string(), None);
    let options = SearchOptions::default();
    let results = search_in_buffer(&buffer, "aa", &options).unwrap();
    // Non-overlapping, leftmost-first: two matches, not three.
    assert_eq!(results.len(), 2);
}

#[test]
fn test_search_panel_navigation() {
    let buffer = Buffer::from_string(BufferId(0), "x y x y x".to_string(), None);
    let mut panel = SearchPanel::new();
    panel.set_query("x");
    panel.perform_search(&buffer);

    // Three matches; navigation wraps in both directions.
    panel.go_to_next();
    panel.go_to_next();
    panel.go_to_next();
    panel.go_to_previous();
    panel.go_to_previous();
    panel.go_to_previous();

    panel.set_replace_mode(true);
    panel.set_replace_mode(false);
}

#[test]
fn test_matches_filter() {
    assert!(matches_filter("src/main.rs", "*.rs"));
    assert!(!matches_filter("src/main.rs", "*.txt"));
    assert!(!matches_filter("README", "*.md"));
    assert!(!matches_filter("archive.tar.gz", "*.tar"));
    assert!(matches_filter("archive.tar.gz", "*.gz"));
    assert!(!matches_filter("file.rs", "rs"));
}

#[test]
fn test_grep_panel_collects_results() {
    let mut panel = GrepPanel::new();
    panel.add_result(GrepResult {
        file_path: "src/lib.rs".to_string(),
        line_number: 3,
        column: 1,
        line_content: "hello".to_string(),
        match_start: 0,
        match_end: 5,
    });
    panel.clear_results();
}
