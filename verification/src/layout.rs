//! Laying text out in columns: runs of spaces, padding to a width, and
//! numbers in decimal.

use vstd::prelude::*;
use crate::unicode::push_char;

verus! {

/// A run of `count` spaces; none where `count` is not positive.
pub open spec fn spaces(count: int) -> Seq<char> {
    Seq::new(
        if count > 0 {
            count as nat
        } else {
            0
        },
        |i: int| ' ',
    )
}

/// `text` followed by as many spaces as it is short of `width` characters.
/// Text that is longer is not cut.
pub open spec fn padded_right(text: Seq<char>, width: int) -> Seq<char> {
    text + spaces(width - text.len())
}

/// `text` preceded by as many spaces as it is short of `width` characters.
/// Text that is longer is not cut.
pub open spec fn padded_left(text: Seq<char>, width: int) -> Seq<char> {
    spaces(width - text.len()) + text
}

/// The character for a decimal digit.
pub open spec fn digit(value: int) -> char {
    if value == 0 {
        '0'
    } else if value == 1 {
        '1'
    } else if value == 2 {
        '2'
    } else if value == 3 {
        '3'
    } else if value == 4 {
        '4'
    } else if value == 5 {
        '5'
    } else if value == 6 {
        '6'
    } else if value == 7 {
        '7'
    } else if value == 8 {
        '8'
    } else {
        '9'
    }
}

/// A number written in decimal, without leading zeros.
pub open spec fn decimal(n: nat) -> Seq<char>
    decreases n,
{
    if n < 10 {
        seq![digit(n as int)]
    } else {
        decimal(n / 10).push(digit((n % 10) as int))
    }
}

/// Appends `count` spaces to `text`.
pub fn push_spaces(text: &mut String, count: usize)
    ensures
        final(text)@ == old(text)@ + spaces(count as int),
{
    let mut i: usize = 0;
    while i < count
        invariant
            i <= count,
            text@ == old(text)@ + spaces(i as int),
        decreases count - i,
    {
        push_char(text, ' ');
        i += 1;
    }
}

/// Appends `piece` to `text`, and after it the spaces it is short of
/// `width` characters.
pub fn push_padded_right(text: &mut String, piece: &str, width: usize)
    ensures
        final(text)@ == old(text)@ + padded_right(piece@, width as int),
{
    let len = piece.unicode_len();
    text.append(piece);
    push_spaces(text, width.saturating_sub(len));
}

/// Appends to `text` the spaces that `piece` is short of `width`
/// characters, and after them `piece`.
pub fn push_padded_left(text: &mut String, piece: &str, width: usize)
    ensures
        final(text)@ == old(text)@ + padded_left(piece@, width as int),
{
    let len = piece.unicode_len();
    push_spaces(text, width.saturating_sub(len));
    text.append(piece);
}

/// The character for `value`, a decimal digit.
fn digit_char(value: u8) -> (c: char)
    requires
        value < 10,
    ensures
        c == digit(value as int),
{
    if value == 0 {
        '0'
    } else if value == 1 {
        '1'
    } else if value == 2 {
        '2'
    } else if value == 3 {
        '3'
    } else if value == 4 {
        '4'
    } else if value == 5 {
        '5'
    } else if value == 6 {
        '6'
    } else if value == 7 {
        '7'
    } else if value == 8 {
        '8'
    } else {
        '9'
    }
}

/// Appends `n` in decimal to `text`.
pub fn push_decimal(text: &mut String, n: u128)
    ensures
        final(text)@ == old(text)@ + decimal(n as nat),
    decreases n,
{
    if n >= 10 {
        push_decimal(text, n / 10);
    }
    push_char(text, digit_char((n % 10) as u8));
}

} // verus!
