use editor_core::buffer::Buffer;
use editor_core::location::Location;

fn lines_of(buffer: &Buffer) -> Vec<String> {
    buffer.lines.iter().map(|line| line.to_string()).collect()
}

fn document(lines: &[&str]) -> Buffer {
    let mut text = String::new();
    for line in lines {
        text.push_str(line);
        text.push('\n');
    }
    Buffer::load("test.txt", Some(&text))
}

fn at(y: usize, x: usize) -> Location {
    Location { x, y }
}

#[test]
fn default_buffer_is_empty_and_unnamed() {
    let buffer = Buffer::default();
    assert!(buffer.is_empty());
    assert_eq!(buffer.filename, None);
    assert!(!buffer.is_modified);
}

#[test]
fn load_keeps_one_line_per_line_of_text() {
    let buffer = Buffer::load("a.txt", Some("one\ntwo\nthree"));
    assert_eq!(lines_of(&buffer), ["one", "two", "three"]);
    assert_eq!(buffer.filename.as_deref(), Some("a.txt"));
    assert!(!buffer.is_modified);
}

#[test]
fn load_does_not_turn_a_final_line_feed_into_an_empty_line() {
    assert_eq!(lines_of(&Buffer::load("a", Some("one\ntwo\n"))), ["one", "two"]);
    assert_eq!(lines_of(&Buffer::load("a", Some("one\n\n"))), ["one", ""]);
    assert_eq!(lines_of(&Buffer::load("a", Some("\n"))), [""]);
    assert_eq!(lines_of(&Buffer::load("a", Some("\n\nx"))), ["", "", "x"]);
    assert!(Buffer::load("a", Some("")).is_empty());
}

#[test]
fn load_drops_the_carriage_return_before_a_line_feed() {
    assert_eq!(lines_of(&Buffer::load("a", Some("one\r\ntwo\r\n"))), ["one", "two"]);
    assert_eq!(lines_of(&Buffer::load("a", Some("one\r\r\ntwo"))), ["one\r", "two"]);
    assert_eq!(lines_of(&Buffer::load("a", Some("a\rb\nc"))), ["a\rb", "c"]);
    assert_eq!(lines_of(&Buffer::load("a", Some("one\r"))), ["one\r"]);
    assert_eq!(lines_of(&Buffer::load("a", Some("\r\n"))), [""]);
    assert_eq!(lines_of(&Buffer::load("a", Some("\r"))), ["\r"]);
}

#[test]
fn load_splits_lines_as_the_standard_library_does() {
    for text in ["", "a", "a\n", "a\r\n", "\r", "\r\r\n\r", "x\n\ny\r\n\r\nz", "\n\r\n\r"] {
        let expected: Vec<String> = text.lines().map(|line| line.to_string()).collect();
        assert_eq!(lines_of(&Buffer::load("a", Some(text))), expected);
    }
}

#[test]
fn load_without_contents_is_an_empty_named_document() {
    let buffer = Buffer::load("new.txt", None);
    assert!(buffer.is_empty());
    assert_eq!(buffer.filename.as_deref(), Some("new.txt"));
    assert!(!buffer.is_modified);
}

#[test]
fn contents_ends_every_line_with_a_line_feed() {
    assert_eq!(document(&["ab", "", "cd"]).contents(), "ab\n\ncd\n");
    assert_eq!(Buffer::default().contents(), "");
    assert_eq!(Buffer::load("a", Some("x\r\ny")).contents(), "x\ny\n");
}

#[test]
fn save_request_names_the_file_and_its_text() {
    let buffer = document(&["ab", "cd"]);
    let request = buffer.save_request().unwrap();
    assert_eq!(request.filename, "test.txt");
    assert_eq!(request.contents, "ab\ncd\n");
}

#[test]
fn unnamed_buffer_has_nothing_to_save() {
    let mut buffer = Buffer::default();
    buffer.insert_char('a', at(0, 0));
    assert!(buffer.save_request().is_none());
}

#[test]
fn mark_saved_clears_the_modified_flag_only() {
    let mut buffer = document(&["ab"]);
    buffer.insert_char('x', at(0, 1));
    assert!(buffer.is_modified);
    buffer.mark_saved();
    assert!(!buffer.is_modified);
    assert_eq!(lines_of(&buffer), ["axb"]);
    assert_eq!(buffer.filename.as_deref(), Some("test.txt"));
}

#[test]
fn is_last_line_of_documents() {
    let buffer = document(&["a", "b", "c"]);
    assert!(buffer.is_last_line(2));
    assert!(!buffer.is_last_line(1));
    assert!(!buffer.is_last_line(3));
    assert!(Buffer::default().is_last_line(0));
    assert!(!Buffer::default().is_last_line(1));
}

#[test]
fn insert_char_into_a_line() {
    let mut buffer = document(&["ab", "cd"]);
    buffer.insert_char('x', at(1, 1));
    assert_eq!(lines_of(&buffer), ["ab", "cxd"]);
    assert!(buffer.is_modified);
}

#[test]
fn insert_char_below_the_last_line_starts_a_new_line() {
    let mut buffer = document(&["ab"]);
    buffer.insert_char('x', at(1, 0));
    assert_eq!(lines_of(&buffer), ["ab", "x"]);
    assert!(buffer.is_modified);
    let mut empty = Buffer::default();
    empty.insert_char('\u{4f60}', at(0, 0));
    assert_eq!(lines_of(&empty), ["\u{4f60}"]);
}

#[test]
fn insert_char_further_down_does_nothing() {
    let mut buffer = document(&["ab"]);
    buffer.insert_char('x', at(2, 0));
    assert_eq!(lines_of(&buffer), ["ab"]);
    assert!(!buffer.is_modified);
}

#[test]
fn delete_removes_the_cluster_at_the_caret() {
    let mut buffer = document(&["abc", "d"]);
    buffer.delete(at(0, 1));
    assert_eq!(lines_of(&buffer), ["ac", "d"]);
    assert!(buffer.is_modified);
}

#[test]
fn delete_at_the_end_of_a_line_joins_the_next_line() {
    let mut buffer = document(&["ab", "cd", "ef"]);
    buffer.delete(at(0, 2));
    assert_eq!(lines_of(&buffer), ["abcd", "ef"]);
    assert!(buffer.is_modified);
    buffer.delete(at(0, 4));
    assert_eq!(lines_of(&buffer), ["abcdef"]);
}

#[test]
fn delete_at_the_end_of_the_last_line_does_nothing() {
    let mut buffer = document(&["ab", "cd"]);
    buffer.delete(at(1, 2));
    assert_eq!(lines_of(&buffer), ["ab", "cd"]);
    assert_eq!(buffer.lines.len(), 2);
    assert!(!buffer.is_modified);
}

#[test]
fn delete_below_the_document_does_nothing() {
    let mut buffer = document(&["ab"]);
    buffer.delete(at(1, 0));
    buffer.delete(at(9, 9));
    assert_eq!(lines_of(&buffer), ["ab"]);
    assert!(!buffer.is_modified);
    let mut empty = Buffer::default();
    empty.delete(at(0, 0));
    assert!(empty.is_empty());
    assert!(!empty.is_modified);
}

#[test]
fn delete_forward_twice_empties_the_line_and_then_does_nothing() {
    let mut buffer = document(&["ab"]);
    buffer.delete(at(0, 0));
    buffer.delete(at(0, 0));
    assert_eq!(lines_of(&buffer), [""]);
    buffer.mark_saved();
    buffer.delete(at(0, 0));
    assert_eq!(lines_of(&buffer), [""]);
    assert!(!buffer.is_modified);
}

#[test]
fn insert_new_line_splits_the_line_at_the_caret() {
    let mut buffer = document(&["abcd", "ef"]);
    buffer.insert_new_line(at(0, 1));
    assert_eq!(lines_of(&buffer), ["a", "bcd", "ef"]);
    assert!(buffer.is_modified);
}

#[test]
fn insert_new_line_at_the_end_of_a_line_adds_an_empty_line_below() {
    let mut buffer = document(&["ab", "cd"]);
    buffer.insert_new_line(at(0, 2));
    assert_eq!(lines_of(&buffer), ["ab", "", "cd"]);
}

#[test]
fn insert_new_line_at_the_start_of_a_line_adds_an_empty_line_above() {
    let mut buffer = document(&["ab", "cd"]);
    buffer.insert_new_line(at(1, 0));
    assert_eq!(lines_of(&buffer), ["ab", "", "cd"]);
}

#[test]
fn insert_new_line_just_below_the_document_appends_an_empty_line() {
    let mut buffer = document(&["ab"]);
    buffer.insert_new_line(at(1, 0));
    assert_eq!(lines_of(&buffer), ["ab", ""]);
    assert!(buffer.is_modified);
    let mut empty = Buffer::default();
    empty.insert_new_line(at(0, 0));
    assert_eq!(lines_of(&empty), [""]);
    assert!(empty.is_modified);
}

#[test]
fn insert_new_line_further_down_does_nothing() {
    let mut buffer = document(&["ab"]);
    buffer.insert_new_line(at(2, 0));
    buffer.insert_new_line(at(7, 3));
    buffer.insert_new_line(at(usize::MAX, 0));
    assert_eq!(lines_of(&buffer), ["ab"]);
    assert_eq!(buffer.lines.len(), 1);
    assert!(!buffer.is_modified);
    let mut empty = Buffer::default();
    empty.insert_new_line(at(1, 0));
    assert!(empty.is_empty());
    assert!(!empty.is_modified);
}
