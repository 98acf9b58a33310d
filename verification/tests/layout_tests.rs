use editor_core::layout::{push_decimal, push_padded_left, push_padded_right, push_spaces};

fn decimal(n: u128) -> String {
    let mut text = String::new();
    push_decimal(&mut text, n);
    text
}

#[test]
fn decimal_of_small_and_large_numbers() {
    assert_eq!(decimal(0), "0");
    assert_eq!(decimal(7), "7");
    assert_eq!(decimal(10), "10");
    assert_eq!(decimal(1234567890), "1234567890");
    assert_eq!(decimal(u128::MAX), "340282366920938463463374607431768211455");
}

#[test]
fn decimal_is_appended_to_what_is_there() {
    let mut text = String::from("n=");
    push_decimal(&mut text, 405);
    assert_eq!(text, "n=405");
}

#[test]
fn spaces_are_appended() {
    let mut text = String::from("a");
    push_spaces(&mut text, 3);
    assert_eq!(text, "a   ");
    push_spaces(&mut text, 0);
    assert_eq!(text, "a   ");
}

#[test]
fn padding_on_the_right_fills_up_to_the_width() {
    let mut text = String::from("[");
    push_padded_right(&mut text, "ab", 5);
    text.push(']');
    assert_eq!(text, "[ab   ]");
}

#[test]
fn padding_on_the_left_fills_up_to_the_width() {
    let mut text = String::from("[");
    push_padded_left(&mut text, "ab", 5);
    text.push(']');
    assert_eq!(text, "[   ab]");
}

#[test]
fn padding_never_cuts() {
    let mut text = String::new();
    push_padded_right(&mut text, "abcdef", 3);
    push_padded_left(&mut text, "ghijkl", 0);
    push_padded_left(&mut text, "mn", 2);
    assert_eq!(text, "abcdefghijklmn");
}

#[test]
fn padding_counts_characters_not_bytes() {
    let mut text = String::new();
    push_padded_right(&mut text, "\u{e9}", 3);
    push_padded_left(&mut text, "\u{4f60}", 2);
    assert_eq!(text, "\u{e9}   \u{4f60}");
}
