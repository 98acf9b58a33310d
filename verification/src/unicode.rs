//! What the library takes from Unicode tables: grapheme segmentation, display
//! width and the two character classes that decide how a cluster is shown.
//!
//! The tables themselves are not modelled. Segmentation, width and trimming
//! each have a name, and the functions below state that the lookup returns
//! what the name stands for. The control codes are few and fixed, and are
//! listed.

use unicode_segmentation::UnicodeSegmentation;
use unicode_width::UnicodeWidthStr;
use vstd::prelude::*;

verus! {

/// The extended grapheme clusters of `text`, in order.
pub uninterp spec fn grapheme_clusters(text: Seq<char>) -> Seq<Seq<char>>;

/// The number of terminal columns that `text` takes when printed.
pub uninterp spec fn display_width(text: Seq<char>) -> usize;

/// `text` without its leading and trailing white space.
pub uninterp spec fn trimmed(text: Seq<char>) -> Seq<char>;

/// Whether `c` is a control code: a character of the general category Cc,
/// which holds U+0000 to U+001F and U+007F to U+009F and nothing else.
pub open spec fn is_control(c: char) -> bool {
    c as u32 <= 0x1f || (0x7f <= c as u32 && c as u32 <= 0x9f)
}

/// The texts of a list of strings.
pub open spec fn texts(parts: Seq<String>) -> Seq<Seq<char>> {
    parts.map_values(|part: String| part@)
}

/// Calls `UnicodeSegmentation::graphemes` with extended clusters and copies
/// each cluster into a string of its own. Believed of it: the strings are the
/// clusters that [`grapheme_clusters`] names and, being consecutive slices
/// that cover the input, joined they give it back.
#[verifier::external_body]
pub(crate) fn split_graphemes(text: &str) -> (parts: Vec<String>)
    ensures
        texts(parts@) == grapheme_clusters(text@),
        texts(parts@).flatten() == text@,
{
    text.graphemes(true).map(String::from).collect()
}

/// Calls `UnicodeWidthStr::width`. Believed of it: the result is the width
/// that [`display_width`] names.
#[verifier::external_body]
pub(crate) fn str_width(text: &str) -> (width: usize)
    ensures
        width == display_width(text@),
{
    text.width()
}

/// Calls `str::trim`. Believed of it: the result is the text that
/// [`trimmed`] names.
#[verifier::external_body]
pub(crate) fn trim(text: &str) -> (inner: &str)
    ensures
        inner@ == trimmed(text@),
{
    text.trim()
}

/// Calls `char::is_control`. Believed of it: the result is true for the
/// control codes, as [`is_control`] lists them, and for no other character.
#[verifier::external_body]
pub(crate) fn char_is_control(c: char) -> (control: bool)
    ensures
        control == is_control(c),
{
    c.is_control()
}

/// Calls `String::push`. Believed of it: the character is appended and the
/// rest of the string stays.
#[verifier::external_body]
pub(crate) fn push_char(text: &mut String, c: char)
    ensures
        final(text)@ == old(text)@.push(c),
{
    text.push(c)
}

} // verus!
