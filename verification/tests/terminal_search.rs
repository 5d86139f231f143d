//! Terminal search tests, running against the real expression engine.

use oxideterm::search::{search_lines, SearchOptions, TerminalLine};

fn make_line(text: &str) -> TerminalLine {
    TerminalLine::new(text.to_string())
}

#[test]
fn test_literal_search() {
    let lines = vec![
        make_line("Hello world"),
        make_line("Hello Rust"),
        make_line("Goodbye world"),
    ];

    let options = SearchOptions {
        query: "Hello".to_string(),
        case_sensitive: true,
        regex: false,
        whole_word: false,
        max_matches: 0,
    };

    let result = search_lines(&lines, options);
    assert_eq!(result.total_matches, 2);
    assert_eq!(result.matches[0].line_number, 0);
    assert_eq!(result.matches[1].line_number, 1);
}

#[test]
fn test_case_insensitive() {
    let lines = vec![
        make_line("Hello World"),
        make_line("hello world"),
        make_line("HELLO WORLD"),
    ];

    let options = SearchOptions {
        query: "hello".to_string(),
        case_sensitive: false,
        regex: false,
        whole_word: false,
        max_matches: 0,
    };

    let result = search_lines(&lines, options);
    assert_eq!(result.total_matches, 3);
}

#[test]
fn test_whole_word() {
    let lines = vec![
        make_line("hello world"),
        make_line("helloworld"),
        make_line("say hello please"),
    ];

    let options = SearchOptions {
        query: "hello".to_string(),
        case_sensitive: false,
        regex: false,
        whole_word: true,
        max_matches: 0,
    };

    let result = search_lines(&lines, options);
    assert_eq!(result.total_matches, 2); // Matches line 0 and 2, not 1
    assert_eq!(result.matches[0].line_number, 0);
    assert_eq!(result.matches[1].line_number, 2);
}

#[test]
fn test_regex_search() {
    let lines = vec![
        make_line("Error: file not found"),
        make_line("Warning: deprecated API"),
        make_line("Info: starting server"),
        make_line("Error: connection timeout"),
    ];

    let options = SearchOptions {
        query: r"^Error:".to_string(),
        case_sensitive: true,
        regex: true,
        whole_word: false,
        max_matches: 0,
    };

    let result = search_lines(&lines, options);
    assert_eq!(result.total_matches, 2);
    assert_eq!(result.matches[0].line_number, 0);
    assert_eq!(result.matches[1].line_number, 3);
}

#[test]
fn test_multiple_matches_per_line() {
    let lines = vec![make_line("test test test")];

    let options = SearchOptions {
        query: "test".to_string(),
        case_sensitive: true,
        regex: false,
        whole_word: false,
        max_matches: 0,
    };

    let result = search_lines(&lines, options);
    assert_eq!(result.total_matches, 3);
}

#[test]
fn test_no_matches() {
    let lines = vec![make_line("Hello world"), make_line("Goodbye world")];

    let options = SearchOptions {
        query: "Rust".to_string(),
        case_sensitive: true,
        regex: false,
        whole_word: false,
        max_matches: 0,
    };

    let result = search_lines(&lines, options);
    assert_eq!(result.total_matches, 0);
    assert!(result.matches.is_empty());
}

#[test]
fn test_invalid_regex() {
    let lines = vec![make_line("test")];

    let options = SearchOptions {
        query: "[invalid(".to_string(),
        case_sensitive: true,
        regex: true,
        whole_word: false,
        max_matches: 0,
    };

    let result = search_lines(&lines, options);
    assert_eq!(result.total_matches, 0); // Should not panic, return empty
    assert!(result.error.is_some()); // Should have error message
    assert!(result.error.unwrap().contains("Invalid regex"));
}

#[test]
fn test_special_characters_literal() {
    let lines = vec![make_line("file.txt"), make_line("fileXtxt")];

    let options = SearchOptions {
        query: "file.txt".to_string(),
        case_sensitive: true,
        regex: false, // Literal search, dot should be escaped
        whole_word: false,
        max_matches: 0,
    };

    let result = search_lines(&lines, options);
    assert_eq!(result.total_matches, 1); // Only matches exact "file.txt"
    assert_eq!(result.matches[0].line_number, 0);
}

#[test]
fn cap_keeps_counting_and_reports_truncation() {
    let lines = vec![make_line("a a a a a")];
    let options = SearchOptions {
        query: "a".to_string(),
        case_sensitive: true,
        regex: false,
        whole_word: false,
        max_matches: 2,
    };
    let result = search_lines(&lines, options);
    assert_eq!(result.total_matches, 5);
    assert_eq!(result.matches.len(), 2);
    assert!(result.truncated);
    assert_eq!(result.matches[0].matched_text, "a");
    assert_eq!(result.matches[0].line_content, "a a a a a");
}
