use editor_core::line::{GraphemeWidth, Line};

#[test]
fn ascii_line_counts_its_characters() {
    let line = Line::from("abc");
    assert_eq!(line.grapheme_count(), 3);
    assert_eq!(line.to_string(), "abc");
}

#[test]
fn empty_line_has_no_clusters() {
    let line = Line::from("");
    assert_eq!(line.grapheme_count(), 0);
    assert_eq!(line.width(), 0);
    assert_eq!(line.to_string(), "");
    assert_eq!(line.get_graphemes(0..10), "");
    assert_eq!(Line::default().grapheme_count(), 0);
}

#[test]
fn combining_mark_joins_its_base() {
    let line = Line::from("e\u{301}x");
    assert_eq!(line.grapheme_count(), 2);
    assert_eq!(line.width(), 2);
    assert_eq!(line.to_string(), "e\u{301}x");
}

#[test]
fn text_round_trips_through_a_line() {
    for text in ["hello world", "a\tb", "\u{4f60}\u{597d}", "e\u{301}\u{200b}z", "  "] {
        assert_eq!(Line::from(text).to_string(), text);
    }
}

#[test]
fn full_width_character_takes_two_columns() {
    let line = Line::from("\u{4f60}ab");
    assert_eq!(line.grapheme_count(), 3);
    assert_eq!(line.width_until(0), 0);
    assert_eq!(line.width_until(1), 2);
    assert_eq!(line.width_until(2), 3);
    assert_eq!(line.width_until(3), 4);
    assert_eq!(line.width(), 4);
}

#[test]
fn width_until_stops_at_the_end_of_the_line() {
    let line = Line::from("abc");
    assert_eq!(line.width_until(3), 3);
    assert_eq!(line.width_until(4), 3);
    assert_eq!(line.width_until(usize::MAX), 3);
}

#[test]
fn whole_window_shows_the_whole_line() {
    let line = Line::from("hello");
    assert_eq!(line.get_graphemes(0..line.width()), "hello");
    let wide = Line::from("\u{4f60}\u{597d}!");
    assert_eq!(wide.get_graphemes(0..wide.width()), "\u{4f60}\u{597d}!");
}

#[test]
fn whole_window_shows_marks_in_place_of_what_cannot_be_shown() {
    let line = Line::from("a\tb\u{200b}c");
    assert_eq!(line.grapheme_count(), 5);
    assert_eq!(line.width(), 5);
    assert_eq!(line.get_graphemes(0..line.width()), "a b.c");
    assert_eq!(line.to_string(), "a\tb\u{200b}c");
}

#[test]
fn window_cuts_by_column() {
    let line = Line::from("abcdef");
    assert_eq!(line.get_graphemes(0..3), "abc");
    assert_eq!(line.get_graphemes(2..4), "cd");
    assert_eq!(line.get_graphemes(4..100), "ef");
    assert_eq!(line.get_graphemes(6..8), "");
    assert_eq!(line.get_graphemes(3..3), "");
}

#[test]
fn window_never_splits_a_wide_cluster() {
    let line = Line::from("a\u{4f60}b");
    assert_eq!(line.get_graphemes(0..4), "a\u{4f60}b");
    assert_eq!(line.get_graphemes(0..2), "a\u{22ef}");
    assert_eq!(line.get_graphemes(2..4), "\u{22ef}b");
    assert_eq!(line.get_graphemes(1..3), "\u{4f60}");
    assert_eq!(line.get_graphemes(2..2), "\u{22ef}");
}

#[test]
fn window_that_ends_before_it_starts_is_empty() {
    let line = Line::from("abcdef");
    let (start, end) = (4, 2);
    assert_eq!(line.get_graphemes(start..end), "");
}

#[test]
fn tab_is_shown_as_one_space() {
    let line = Line::from("\t");
    assert_eq!(line.grapheme_count(), 1);
    assert_eq!(line.width(), 1);
    assert_eq!(line.get_graphemes(0..1), " ");
}

#[test]
fn space_is_shown_as_itself() {
    let line = Line::from(" ");
    assert_eq!(line.width(), 1);
    assert_eq!(line.get_graphemes(0..1), " ");
}

#[test]
fn wide_blank_is_shown_as_a_mark_of_one_column() {
    let line = Line::from("\u{3000}");
    assert_eq!(line.grapheme_count(), 1);
    assert_eq!(line.width(), 1);
    assert_eq!(line.get_graphemes(0..1), "\u{2423}");
}

#[test]
fn no_break_space_is_shown_as_a_mark() {
    let line = Line::from("a\u{a0}b");
    assert_eq!(line.get_graphemes(0..3), "a\u{2423}b");
}

#[test]
fn zero_width_cluster_is_shown_as_a_dot() {
    let line = Line::from("\u{200b}");
    assert_eq!(line.grapheme_count(), 1);
    assert_eq!(line.width(), 1);
    assert_eq!(line.get_graphemes(0..1), ".");
    let mark = Line::from("\u{301}");
    assert_eq!(mark.get_graphemes(0..1), ".");
}

#[test]
fn insert_char_puts_the_character_before_the_index() {
    let mut line = Line::from("ac");
    line.insert_char('b', 1);
    assert_eq!(line.to_string(), "abc");
    line.insert_char('_', 0);
    assert_eq!(line.to_string(), "_abc");
    line.insert_char('!', 4);
    assert_eq!(line.to_string(), "_abc!");
    assert_eq!(line.grapheme_count(), 5);
}

#[test]
fn insert_char_past_the_end_inserts_nothing() {
    let mut line = Line::from("ab");
    line.insert_char('x', 3);
    assert_eq!(line.to_string(), "ab");
    assert_eq!(line.grapheme_count(), 2);
}

#[test]
fn inserted_combining_mark_joins_the_cluster_before_it() {
    let mut line = Line::from("ex");
    line.insert_char('\u{301}', 1);
    assert_eq!(line.grapheme_count(), 2);
    assert_eq!(line.to_string(), "e\u{301}x");
}

#[test]
fn append_char_adds_at_the_end() {
    let mut line = Line::default();
    line.append_char('a');
    line.append_char('\u{4f60}');
    assert_eq!(line.to_string(), "a\u{4f60}");
    assert_eq!(line.width(), 3);
}

#[test]
fn remove_grapheme_at_removes_one_cluster() {
    let mut line = Line::from("ae\u{301}b");
    line.remove_grapheme_at(1);
    assert_eq!(line.to_string(), "ab");
    line.remove_grapheme_at(0);
    assert_eq!(line.to_string(), "b");
}

#[test]
fn remove_grapheme_at_past_the_end_changes_nothing() {
    let mut line = Line::from("ab");
    line.remove_grapheme_at(2);
    assert_eq!(line.to_string(), "ab");
    line.remove_grapheme_at(usize::MAX);
    assert_eq!(line.to_string(), "ab");
    assert_eq!(line.grapheme_count(), 2);
}

#[test]
fn remove_last_removes_the_last_cluster() {
    let mut line = Line::from("ab\u{4f60}");
    line.remove_last();
    assert_eq!(line.to_string(), "ab");
    line.remove_last();
    line.remove_last();
    assert_eq!(line.to_string(), "");
    line.remove_last();
    assert_eq!(line.grapheme_count(), 0);
}

#[test]
fn insert_then_remove_gives_the_line_back() {
    for index in 0..=3 {
        let mut line = Line::from("a\u{4f60}c");
        line.insert_char('x', index);
        assert_eq!(line.grapheme_count(), 4);
        line.remove_grapheme_at(index);
        assert_eq!(line.to_string(), "a\u{4f60}c");
        assert_eq!(line.get_graphemes(0..line.width()), "a\u{4f60}c");
        assert_eq!(line.grapheme_count(), 3);
    }
}

#[test]
fn concat_appends_the_other_line() {
    let mut line = Line::from("ab");
    line.concat(&Line::from("\u{4f60}d"));
    assert_eq!(line.to_string(), "ab\u{4f60}d");
    assert_eq!(line.grapheme_count(), 4);
    assert_eq!(line.width(), 5);
    line.concat(&Line::default());
    assert_eq!(line.grapheme_count(), 4);
}

#[test]
fn split_off_cuts_the_line_in_two() {
    let mut line = Line::from("ab\u{4f60}d");
    let tail = line.split_off(2);
    assert_eq!(line.to_string(), "ab");
    assert_eq!(tail.to_string(), "\u{4f60}d");
    assert_eq!(tail.width(), 3);
}

#[test]
fn split_off_at_the_ends() {
    let mut line = Line::from("abc");
    let tail = line.split_off(3);
    assert_eq!(line.to_string(), "abc");
    assert_eq!(tail.grapheme_count(), 0);
    let all = line.split_off(0);
    assert_eq!(line.grapheme_count(), 0);
    assert_eq!(all.to_string(), "abc");
}

#[test]
fn split_off_past_the_end_cuts_at_the_end() {
    let mut line = Line::from("abc");
    let tail = line.split_off(7);
    assert_eq!(line.to_string(), "abc");
    assert_eq!(tail.grapheme_count(), 0);
}

#[test]
fn grapheme_width_values() {
    assert_eq!(GraphemeWidth::Half.to_value(), 1);
    assert_eq!(GraphemeWidth::Full.to_value(), 2);
    assert_eq!(GraphemeWidth::from_value(0), GraphemeWidth::Half);
    assert_eq!(GraphemeWidth::from_value(1), GraphemeWidth::Half);
    assert_eq!(GraphemeWidth::from_value(2), GraphemeWidth::Full);
    assert_eq!(GraphemeWidth::from_value(3), GraphemeWidth::Full);
    assert_eq!(GraphemeWidth::Full.saturating_add(5), 7);
    assert_eq!(GraphemeWidth::Half.saturating_add(usize::MAX), usize::MAX);
    assert_eq!(GraphemeWidth::Full.saturating_add(usize::MAX - 1), usize::MAX);
}

#[test]
fn lone_control_code_is_shown_as_a_mark() {
    let line = Line::from("a\u{1b}b");
    assert_eq!(line.grapheme_count(), 3);
    assert_eq!(line.get_graphemes(0..3), "aKb");
    assert_eq!(line.to_string(), "a\u{1b}b");
    assert_eq!(Line::from("\u{0}").get_graphemes(0..1), "K");
}

#[test]
fn line_break_inside_a_line_is_shown_as_blank_mark() {
    assert_eq!(Line::from("\r\n").grapheme_count(), 1);
    assert_eq!(Line::from("\r\n").get_graphemes(0..1), "\u{2423}");
}

#[test]
fn replacement_follows_what_the_terminal_makes_of_a_cluster() {
    assert_eq!(Line::replacement_character(" ", 1, true, false), None);
    assert_eq!(Line::replacement_character("\t", 1, true, true), Some(' '));
    assert_eq!(Line::replacement_character("\t", 0, false, false), Some(' '));
    assert_eq!(Line::replacement_character("\u{3000}", 2, true, false), Some('\u{2423}'));
    assert_eq!(Line::replacement_character("  ", 2, true, false), Some('\u{2423}'));
    assert_eq!(Line::replacement_character("\u{1b}", 1, false, true), Some('K'));
    assert_eq!(Line::replacement_character("\u{1b}", 0, false, true), Some('K'));
    assert_eq!(Line::replacement_character("\u{1b}x", 0, false, true), Some('.'));
    assert_eq!(Line::replacement_character("\u{200b}", 0, false, false), Some('.'));
    assert_eq!(Line::replacement_character("", 0, true, false), Some('.'));
    assert_eq!(Line::replacement_character("a", 1, false, false), None);
    assert_eq!(Line::replacement_character("\u{4f60}", 2, false, false), None);
    assert_eq!(Line::replacement_character("\u{1b}x", 2, false, true), None);
}

#[test]
fn line_from_clusters_keeps_the_clusters() {
    let line = Line::from_clusters(vec![
        String::from("ab"),
        String::from("\t"),
        String::from("\u{4f60}"),
    ]);
    assert_eq!(line.grapheme_count(), 3);
    assert_eq!(line.to_string(), "ab\t\u{4f60}");
    assert_eq!(line.width_until(1), 2);
    assert_eq!(line.width(), 5);
    assert_eq!(line.get_graphemes(0..5), "ab \u{4f60}");
    assert_eq!(line.get_graphemes(1..5), "\u{22ef} \u{4f60}");
    assert_eq!(Line::from_clusters(Vec::new()).grapheme_count(), 0);
}

#[test]
fn control_codes_are_the_two_blocks_and_nothing_else() {
    for code in ['\u{1}', '\u{8}', '\u{1f}', '\u{7f}', '\u{80}', '\u{9f}'] {
        let text = code.to_string();
        assert_eq!(Line::from(&text).get_graphemes(0..1), "K");
    }
    for code in ['!', '~', '\u{a1}'] {
        let text = code.to_string();
        assert_eq!(Line::from(&text).get_graphemes(0..1), text);
    }
}
