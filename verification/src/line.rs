//! A line of text as a sequence of grapheme clusters.
//!
//! A line is addressed in two ways that must not be mixed up: by grapheme
//! index, which is how the caret moves, and by rendered column, which is how
//! the screen is laid out. A cluster takes one column or two. Clusters that a
//! terminal would not show as such (a tab, wide blank space, text of no
//! width) are shown as a one-column mark instead.

use std::ops::Range;
use vstd::prelude::*;
use vstd::seq_lib::lemma_flatten_concat;
use crate::unicode::{
    char_is_control,
    display_width,
    grapheme_clusters,
    is_control,
    push_char,
    split_graphemes,
    str_width,
    texts,
    trim,
    trimmed,
};

verus! {

/// Shown in place of blank space that is wider than nothing.
pub const BLANK_MARK: char = '\u{2423}';

/// Shown in place of a lone control code.
pub const CONTROL_MARK: char = 'K';

/// Shown in place of any other cluster that takes no column.
pub const ZERO_WIDTH_MARK: char = '.';

/// Shown in place of a cluster that a window cuts through.
pub const ELLIPSIS: char = '\u{22ef}';

/// The number of columns a cluster takes on screen.
#[derive(Clone, Copy, Debug, PartialEq, Eq, Structural)]
pub enum GraphemeWidth {
    Half,
    Full,
}

/// What a fragment of a line is: its cluster, its width on screen and the
/// mark shown in its place, if any.
pub struct FragmentView {
    pub grapheme: Seq<char>,
    pub rendered_width: GraphemeWidth,
    pub replacement: Option<char>,
}

/// One grapheme cluster of a line.
pub struct TextFragment {
    grapheme: String,
    rendered_width: GraphemeWidth,
    replacement: Option<char>,
}

/// A line of text, one fragment per grapheme cluster, in visual order.
pub struct Line {
    fragments: Vec<TextFragment>,
}

/// Columns taken by a cluster of the given width: one or two.
pub open spec fn columns(width: GraphemeWidth) -> int {
    match width {
        GraphemeWidth::Half => 1,
        GraphemeWidth::Full => 2,
    }
}

/// The width class of a cluster that the terminal shows in `width` columns:
/// full from two columns on.
pub open spec fn width_class(width: usize) -> GraphemeWidth {
    if width <= 1 {
        GraphemeWidth::Half
    } else {
        GraphemeWidth::Full
    }
}

/// The mark shown in place of a cluster, if it is not shown as itself,
/// given what the terminal makes of it: the columns it takes, whether it is
/// blank, and whether it starts with a control code. A single space is
/// itself; a tab is shown as a space; other blank text of some width is
/// shown as [`BLANK_MARK`]; a lone control code is shown as
/// [`CONTROL_MARK`]; and any other text of no width is shown as
/// [`ZERO_WIDTH_MARK`].
pub open spec fn mark_for(grapheme: Seq<char>, width: usize, blank: bool, control: bool) -> Option<
    char,
> {
    if grapheme.len() == 1 && grapheme[0] == ' ' {
        None
    } else if grapheme.len() == 1 && grapheme[0] == '\t' {
        Some(' ')
    } else if width > 0 && blank {
        Some(BLANK_MARK)
    } else if grapheme.len() == 1 && control {
        Some(CONTROL_MARK)
    } else if width == 0 {
        Some(ZERO_WIDTH_MARK)
    } else {
        None
    }
}

/// The mark shown in place of `grapheme`, if it is not shown as itself.
pub open spec fn replacement_of(grapheme: Seq<char>) -> Option<char> {
    mark_for(
        grapheme,
        display_width(grapheme),
        trimmed(grapheme).len() == 0,
        grapheme.len() > 0 && is_control(grapheme[0]),
    )
}

/// The fragment that stands for the cluster `grapheme`. A replaced cluster
/// takes one column, any other as many as the terminal gives it.
pub open spec fn fragment_of(grapheme: Seq<char>) -> FragmentView {
    FragmentView {
        grapheme,
        rendered_width: match replacement_of(grapheme) {
            Some(_) => GraphemeWidth::Half,
            None => width_class(display_width(grapheme)),
        },
        replacement: replacement_of(grapheme),
    }
}

/// The fragments that stand for the given clusters.
pub open spec fn fragments_for(clusters: Seq<Seq<char>>) -> Seq<FragmentView> {
    clusters.map_values(|grapheme: Seq<char>| fragment_of(grapheme))
}

/// The fragments of a text: one for each of its grapheme clusters.
pub open spec fn fragments_of(text: Seq<char>) -> Seq<FragmentView> {
    fragments_for(grapheme_clusters(text))
}

/// The clusters of a sequence of fragments.
pub open spec fn graphemes_of(fragments: Seq<FragmentView>) -> Seq<Seq<char>> {
    fragments.map_values(|fragment: FragmentView| fragment.grapheme)
}

/// The text that a sequence of fragments spells.
pub open spec fn text_of(fragments: Seq<FragmentView>) -> Seq<char> {
    graphemes_of(fragments).flatten()
}

/// Whether each fragment carries the width and the mark of its own cluster.
pub open spec fn classified(fragments: Seq<FragmentView>) -> bool {
    forall|i: int|
        0 <= i < fragments.len() ==> #[trigger] fragments[i] == fragment_of(
            fragments[i].grapheme,
        )
}

/// Whether the fragments are exactly those of the text they spell.
pub open spec fn canonical(fragments: Seq<FragmentView>) -> bool {
    fragments == fragments_of(text_of(fragments))
}

/// Columns taken by the first `count` fragments, or by all of them where
/// there are fewer.
pub open spec fn prefix_width(fragments: Seq<FragmentView>, count: int) -> int
    decreases count,
{
    if count <= 0 {
        0
    } else if count > fragments.len() {
        prefix_width(fragments, fragments.len() as int)
    } else {
        prefix_width(fragments, count - 1) + columns(fragments[count - 1].rendered_width)
    }
}

/// Columns taken by the whole line.
pub open spec fn total_width(fragments: Seq<FragmentView>) -> int {
    prefix_width(fragments, fragments.len() as int)
}

/// A column count as a machine number: itself where it fits, and the
/// largest number otherwise.
pub open spec fn saturate(columns: int) -> usize {
    if columns > usize::MAX {
        usize::MAX
    } else {
        columns as usize
    }
}

/// What a fragment looks like when shown in full: its mark if it has one,
/// else its own cluster.
pub open spec fn shown(fragment: FragmentView) -> Seq<char> {
    match fragment.replacement {
        Some(mark) => seq![mark],
        None => fragment.grapheme,
    }
}

/// What fragment `i` adds to the window of columns `start..end`: nothing if
/// it lies outside, an ellipsis if the window cuts through it, and itself
/// if it lies inside.
pub open spec fn window_cell(fragments: Seq<FragmentView>, i: int, start: int, end: int) -> Seq<
    char,
> {
    let left = prefix_width(fragments, i);
    let right = prefix_width(fragments, i + 1);
    if left >= end || right <= start {
        Seq::empty()
    } else if right > end || left < start {
        seq![ELLIPSIS]
    } else {
        shown(fragments[i])
    }
}

/// What the first `count` fragments add to the window of columns
/// `start..end`.
pub open spec fn window_cells(fragments: Seq<FragmentView>, count: int, start: int, end: int) -> Seq<
    Seq<char>,
> {
    Seq::new(count as nat, |i: int| window_cell(fragments, i, start, end))
}

/// The text seen through the window of columns `start..end`; empty where
/// the window ends before it starts.
pub open spec fn rendered(fragments: Seq<FragmentView>, start: int, end: int) -> Seq<char> {
    if start > end {
        Seq::empty()
    } else {
        window_cells(fragments, fragments.len() as int, start, end).flatten()
    }
}

/// The line in full as the screen shows it: every fragment as itself or as
/// its mark.
pub open spec fn display_text(fragments: Seq<FragmentView>) -> Seq<char> {
    fragments.map_values(|fragment: FragmentView| shown(fragment)).flatten()
}

/// The text of a line with `ch` put before fragment `index`, or at the end
/// where `index` is the number of fragments. Any other index leaves the
/// text as it is.
pub open spec fn text_with_insert(fragments: Seq<FragmentView>, ch: char, index: int) -> Seq<
    char,
> {
    if 0 <= index <= fragments.len() {
        text_of(fragments.take(index)) + seq![ch] + text_of(fragments.skip(index))
    } else {
        text_of(fragments)
    }
}

/// A line after `ch` was inserted at `index`: the text is cut into clusters
/// anew, since the character may join a cluster beside it.
pub open spec fn inserted(fragments: Seq<FragmentView>, ch: char, index: int) -> Seq<
    FragmentView,
> {
    fragments_of(text_with_insert(fragments, ch, index))
}

/// A line after the cluster at `index` was removed: what is left is cut
/// into clusters anew. An index past the last cluster removes nothing.
pub open spec fn removed(fragments: Seq<FragmentView>, index: int) -> Seq<FragmentView> {
    if 0 <= index < fragments.len() {
        fragments_of(text_of(fragments.remove(index)))
    } else {
        fragments
    }
}

/// The smaller of an index and a length.
pub open spec fn clamp(index: int, len: int) -> int {
    if index < len {
        index
    } else {
        len
    }
}

/// Appending one more piece appends its text.
pub proof fn lemma_flatten_push(parts: Seq<Seq<char>>, last: Seq<char>)
    ensures
        parts.push(last).flatten() == parts.flatten() + last,
{
    lemma_flatten_concat(parts, seq![last]);
    seq![last].lemma_flatten_one_element();
    assert(parts.push(last) =~= parts + seq![last]);
}

/// The text of two runs of fragments, one after the other, is the text of
/// the first followed by the text of the second.
pub proof fn lemma_text_of_concat(front: Seq<FragmentView>, back: Seq<FragmentView>)
    ensures
        text_of(front + back) == text_of(front) + text_of(back),
{
    assert(graphemes_of(front + back) =~= graphemes_of(front) + graphemes_of(back));
    lemma_flatten_concat(graphemes_of(front), graphemes_of(back));
}

/// Column offsets never go down as the grapheme index goes up, and start
/// at zero.
pub proof fn lemma_prefix_width_monotonic(fragments: Seq<FragmentView>, i: int, j: int)
    requires
        i <= j,
    ensures
        0 <= prefix_width(fragments, i) <= prefix_width(fragments, j),
    decreases j,
{
    if j <= 0 {
    } else if j > fragments.len() {
        if i > fragments.len() {
            lemma_prefix_width_monotonic(fragments, fragments.len() as int, fragments.len() as int);
        } else {
            lemma_prefix_width_monotonic(fragments, i, fragments.len() as int);
        }
    } else if i == j {
        lemma_prefix_width_monotonic(fragments, i - 1, j - 1);
    } else {
        lemma_prefix_width_monotonic(fragments, i, j - 1);
    }
}

/// Fragments that start at or after the end of the window add nothing to it.
proof fn lemma_window_done(
    fragments: Seq<FragmentView>,
    from: int,
    count: int,
    start: int,
    end: int,
)
    requires
        0 <= from <= count,
        prefix_width(fragments, from) >= end,
    ensures
        window_cells(fragments, count, start, end).flatten() == window_cells(
            fragments,
            from,
            start,
            end,
        ).flatten(),
    decreases count - from,
{
    if from < count {
        lemma_window_done(fragments, from, count - 1, start, end);
        lemma_prefix_width_monotonic(fragments, from, count - 1);
        let before = window_cells(fragments, count - 1, start, end);
        assert(window_cells(fragments, count, start, end) =~= before.push(Seq::empty()));
        lemma_flatten_push(before, Seq::empty());
    }
}

/// One more fragment adds its own cell to the window.
proof fn lemma_window_step(fragments: Seq<FragmentView>, count: int, start: int, end: int)
    requires
        0 <= count,
    ensures
        window_cells(fragments, count + 1, start, end).flatten() == window_cells(
            fragments,
            count,
            start,
            end,
        ).flatten() + window_cell(fragments, count, start, end),
{
    let before = window_cells(fragments, count, start, end);
    let cell = window_cell(fragments, count, start, end);
    assert(window_cells(fragments, count + 1, start, end) =~= before.push(cell));
    lemma_flatten_push(before, cell);
}

impl GraphemeWidth {
    /// Columns taken by a cluster of this width.
    pub fn to_value(&self) -> (value: usize)
        ensures
            value == columns(*self),
    {
        match self {
            GraphemeWidth::Half => 1,
            GraphemeWidth::Full => 2,
        }
    }

    /// The width class for a cluster that the terminal shows in `value`
    /// columns.
    pub fn from_value(value: usize) -> (width: GraphemeWidth)
        ensures
            width == width_class(value),
    {
        if value <= 1 {
            GraphemeWidth::Half
        } else {
            GraphemeWidth::Full
        }
    }

    /// `other` plus the columns of this width, stopping at the largest
    /// column number there is.
    pub fn saturating_add(&self, other: usize) -> (sum: usize)
        ensures
            sum == if other + columns(*self) > usize::MAX {
                usize::MAX as int
            } else {
                other + columns(*self)
            },
    {
        other.saturating_add(self.to_value())
    }
}

impl View for TextFragment {
    type V = FragmentView;

    closed spec fn view(&self) -> FragmentView {
        FragmentView {
            grapheme: self.grapheme@,
            rendered_width: self.rendered_width,
            replacement: self.replacement,
        }
    }
}

impl Clone for TextFragment {
    fn clone(&self) -> (copy: TextFragment)
        ensures
            copy@ == self@,
    {
        TextFragment {
            grapheme: self.grapheme.clone(),
            rendered_width: self.rendered_width,
            replacement: self.replacement,
        }
    }
}

/// What a vector of fragments holds.
spec fn views_of(fragments: Seq<TextFragment>) -> Seq<FragmentView> {
    fragments.map_values(|fragment: TextFragment| fragment@)
}

impl View for Line {
    type V = Seq<FragmentView>;

    closed spec fn view(&self) -> Seq<FragmentView> {
        views_of(self.fragments@)
    }
}

impl Line {
    #[verifier::type_invariant]
    spec fn well_formed(self) -> bool {
        classified(self@)
    }

    /// The mark to show in place of a cluster, if it is not shown as
    /// itself, given what the terminal makes of the cluster: the columns it
    /// takes, whether it is blank, and whether it starts with a control
    /// code.
    pub fn replacement_character(grapheme: &str, width: usize, blank: bool, control: bool) -> (replacement:
        Option<char>)
        ensures
            replacement == mark_for(grapheme@, width, blank, control),
    {
        let count = grapheme.unicode_len();
        if count == 1 {
            let only = grapheme.get_char(0);
            if only == ' ' {
                return None;
            }
            if only == '\t' {
                return Some(' ');
            }
        }
        if width > 0 && blank {
            Some(BLANK_MARK)
        } else if count == 1 && control {
            Some(CONTROL_MARK)
        } else if width == 0 {
            Some(ZERO_WIDTH_MARK)
        } else {
            None
        }
    }

    /// The fragment for one cluster: asks the terminal tables about it and
    /// classifies it by what they say.
    fn fragment_for(grapheme: String) -> (fragment: TextFragment)
        ensures
            fragment@ == fragment_of(grapheme@),
    {
        let text = grapheme.as_str();
        let width = str_width(text);
        let blank = trim(text).is_empty();
        let control = !text.is_empty() && char_is_control(text.get_char(0));
        let replacement = Self::replacement_character(text, width, blank, control);
        let rendered_width = match replacement {
            Some(_) => GraphemeWidth::Half,
            None => GraphemeWidth::from_value(width),
        };
        TextFragment { grapheme, rendered_width, replacement }
    }

    /// One fragment for each of the given clusters.
    fn clusters_to_fragments(clusters: Vec<String>) -> (fragments: Vec<TextFragment>)
        ensures
            views_of(fragments@) == fragments_for(texts(clusters@)),
    {
        let mut fragments: Vec<TextFragment> = Vec::new();
        let mut i: usize = 0;
        while i < clusters.len()
            invariant
                i <= clusters.len(),
                fragments@.len() == i,
                forall|j: int|
                    0 <= j < i ==> (#[trigger] fragments@[j])@ == fragment_of(clusters@[j]@),
            decreases clusters.len() - i,
        {
            fragments.push(Self::fragment_for(clusters[i].clone()));
            i += 1;
        }
        fragments
    }

    /// Cuts a text into its grapheme clusters and classifies each.
    fn str_to_fragments(string: &str) -> (fragments: Vec<TextFragment>)
        ensures
            views_of(fragments@) == fragments_of(string@),
            text_of(fragments_of(string@)) == string@,
    {
        let fragments = Self::clusters_to_fragments(split_graphemes(string));
        assert(graphemes_of(fragments_of(string@)) =~= grapheme_clusters(string@));
        fragments
    }

    /// The line made of the given clusters, one fragment for each.
    pub fn from_clusters(clusters: Vec<String>) -> (line: Line)
        ensures
            line@ == fragments_for(texts(clusters@)),
    {
        Line { fragments: Self::clusters_to_fragments(clusters) }
    }

    /// The line that spells `string`.
    pub fn from(string: &str) -> (line: Line)
        ensures
            line@ == fragments_of(string@),
            text_of(line@) == string@,
            canonical(line@),
    {
        Line { fragments: Self::str_to_fragments(string) }
    }

    /// The text seen through the window of columns `range`. A cluster that
    /// the window cuts through is shown as an ellipsis, never in part.
    pub fn get_graphemes(&self, range: Range<usize>) -> (text: String)
        ensures
            text@ == rendered(self@, range.start as int, range.end as int),
            range.start == 0 && range.end >= total_width(self@) ==> text@ == display_text(self@),
    {
        proof {
            if range.start == 0 && range.end >= total_width(self@) {
                lemma_whole_line_window(self@, range.end as int);
            }
        }
        let mut result = String::new();
        if range.start > range.end {
            return result;
        }
        let ghost start = range.start as int;
        let ghost end = range.end as int;
        let mut position: usize = 0;
        let mut i: usize = 0;
        while i < self.fragments.len() && position < range.end
            invariant
                i <= self.fragments.len(),
                self@.len() == self.fragments.len(),
                start == range.start,
                end == range.end,
                start <= end,
                start == 0 && end >= total_width(self@) ==> rendered(self@, start, end)
                    == display_text(self@),
                position == prefix_width(self@, i as int),
                result@ == window_cells(self@, i as int, start, end).flatten(),
            decreases self.fragments.len() - i,
        {
            let fragment = &self.fragments[i];
            let width = fragment.rendered_width.to_value();
            proof {
                lemma_window_step(self@, i as int, start, end);
            }
            if width > usize::MAX - position {
                push_char(&mut result, ELLIPSIS);
                proof {
                    lemma_window_done(self@, i as int + 1, self@.len() as int, start, end);
                }
                return result;
            }
            let fragment_end = position + width;
            if fragment_end > range.start {
                if fragment_end > range.end || position < range.start {
                    push_char(&mut result, ELLIPSIS);
                } else if let Some(mark) = fragment.replacement {
                    push_char(&mut result, mark);
                } else {
                    result.append(fragment.grapheme.as_str());
                }
            }
            position = fragment_end;
            i += 1;
        }
        proof {
            if i < self.fragments.len() {
                lemma_window_done(self@, i as int, self@.len() as int, start, end);
            }
        }
        result
    }

    /// A line has no more clusters than a machine number can count.
    pub proof fn lemma_count_fits(&self)
        ensures
            self@.len() <= usize::MAX,
    {
        vstd::std_specs::vec::axiom_spec_len(&self.fragments);
    }

    /// The number of grapheme clusters in the line.
    pub fn grapheme_count(&self) -> (count: usize)
        ensures
            count == self@.len(),
    {
        self.fragments.len()
    }

    /// The column at which the cluster at `grapheme_index` starts; past the
    /// last cluster, the column at which the line ends.
    pub fn width_until(&self, grapheme_index: usize) -> (width: usize)
        ensures
            width == saturate(prefix_width(self@, grapheme_index as int)),
    {
        let mut total: usize = 0;
        let mut i: usize = 0;
        while i < self.fragments.len() && i < grapheme_index
            invariant
                i <= self.fragments.len(),
                i <= grapheme_index,
                self@.len() == self.fragments.len(),
                total == saturate(prefix_width(self@, i as int)),
            decreases self.fragments.len() - i,
        {
            proof {
                lemma_prefix_width_monotonic(self@, 0, i as int);
            }
            total = self.fragments[i].rendered_width.saturating_add(total);
            i += 1;
        }
        total
    }

    /// The number of columns the whole line takes.
    pub fn width(&self) -> (width: usize)
        ensures
            width == saturate(total_width(self@)),
    {
        self.width_until(self.fragments.len())
    }

    /// The text spelled by the fragments from index `from` up to `to`.
    fn text_between(&self, from: usize, to: usize) -> (text: String)
        requires
            from <= to <= self@.len(),
        ensures
            text@ == text_of(self@.subrange(from as int, to as int)),
    {
        let mut result = String::new();
        let mut i: usize = from;
        while i < to
            invariant
                from <= i <= to,
                to <= self.fragments.len(),
                self@.len() == self.fragments.len(),
                result@ == text_of(self@.subrange(from as int, i as int)),
            decreases to - i,
        {
            result.append(self.fragments[i].grapheme.as_str());
            proof {
                let before = self@.subrange(from as int, i as int);
                let grapheme = self@[i as int].grapheme;
                assert(graphemes_of(self@.subrange(from as int, i + 1)) =~= graphemes_of(
                    before,
                ).push(grapheme));
                lemma_flatten_push(graphemes_of(before), grapheme);
            }
            i += 1;
        }
        result
    }

    /// The text that the line spells.
    pub fn to_string(&self) -> (text: String)
        ensures
            text@ == text_of(self@),
    {
        proof {
            assert(self@.subrange(0, self@.len() as int) =~= self@);
        }
        self.text_between(0, self.fragments.len())
    }

    /// Puts `char` before the cluster at `insert_index`, or at the end where
    /// the index is the number of clusters; any larger index inserts
    /// nothing. The text is then cut into clusters anew.
    pub fn insert_char(&mut self, char: char, insert_index: usize)
        ensures
            final(self)@ == inserted(old(self)@, char, insert_index as int),
            text_of(final(self)@) == text_with_insert(old(self)@, char, insert_index as int),
            canonical(final(self)@),
    {
        let len = self.fragments.len();
        let result = if insert_index <= len {
            let mut text = self.text_between(0, insert_index);
            push_char(&mut text, char);
            let rest = self.text_between(insert_index, len);
            text.append(rest.as_str());
            text
        } else {
            self.to_string()
        };
        assert(result@ == text_with_insert(self@, char, insert_index as int));
        self.fragments = Self::str_to_fragments(result.as_str());
    }

    /// Puts `char` at the end of the line.
    pub fn append_char(&mut self, char: char)
        ensures
            final(self)@ == inserted(old(self)@, char, old(self)@.len() as int),
            text_of(final(self)@) == text_of(old(self)@).push(char),
            canonical(final(self)@),
    {
        proof {
            assert(old(self)@.take(old(self)@.len() as int) =~= old(self)@);
        }
        self.insert_char(char, self.grapheme_count())
    }

    /// Removes the cluster at `remove_index` and cuts what is left into
    /// clusters anew. An index past the last cluster leaves the line as it
    /// is.
    pub fn remove_grapheme_at(&mut self, remove_index: usize)
        ensures
            final(self)@ == removed(old(self)@, remove_index as int),
            remove_index < old(self)@.len() ==> canonical(final(self)@) && text_of(final(self)@)
                == text_of(old(self)@.remove(remove_index as int)),
    {
        let len = self.fragments.len();
        if remove_index < len {
            let mut text = self.text_between(0, remove_index);
            let rest = self.text_between(remove_index + 1, len);
            text.append(rest.as_str());
            proof {
                let front = self@.subrange(0, remove_index as int);
                let back = self@.subrange(remove_index + 1, len as int);
                lemma_text_of_concat(front, back);
            }
            self.fragments = Self::str_to_fragments(text.as_str());
        }
    }

    /// Removes the last cluster, if there is one.
    pub fn remove_last(&mut self)
        ensures
            final(self)@ == removed(old(self)@, old(self)@.len() - 1),
            old(self)@.len() == 0 ==> final(self)@ == old(self)@,
            old(self)@.len() > 0 ==> canonical(final(self)@) && text_of(final(self)@) == text_of(
                old(self)@.drop_last(),
            ),
    {
        proof {
            if self@.len() > 0 {
                assert(self@.remove(self@.len() - 1) =~= self@.drop_last());
            }
        }
        self.remove_grapheme_at(self.grapheme_count().saturating_sub(1));
    }

    /// Appends the fragments of `other`.
    pub fn concat(&mut self, other: &Line)
        ensures
            final(self)@ == old(self)@ + other@,
    {
        proof {
            use_type_invariant(&*self);
            use_type_invariant(other);
        }
        let mut fragments: Vec<TextFragment> = Vec::new();
        core::mem::swap(&mut self.fragments, &mut fragments);
        let mut i: usize = 0;
        while i < other.fragments.len()
            invariant
                i <= other.fragments.len(),
                other@ == views_of(other.fragments@),
                classified(other@),
                classified(old(self)@),
                views_of(fragments@) == old(self)@ + other@.take(i as int),
            decreases other.fragments.len() - i,
        {
            let copy = other.fragments[i].clone();
            proof {
                assert(views_of(fragments@.push(copy)) =~= views_of(fragments@).push(copy@));
            }
            fragments.push(copy);
            i += 1;
        }
        self.fragments = fragments;
    }

    /// Cuts the line before the cluster at `index`: the line keeps what
    /// stands before, and what stands from there on is returned. An index
    /// past the end cuts at the end.
    pub fn split_off(&mut self, index: usize) -> (tail: Line)
        ensures
            final(self)@ == old(self)@.take(clamp(index as int, old(self)@.len() as int)),
            tail@ == old(self)@.skip(clamp(index as int, old(self)@.len() as int)),
    {
        proof {
            use_type_invariant(&*self);
        }
        let mut head: Vec<TextFragment> = Vec::new();
        core::mem::swap(&mut self.fragments, &mut head);
        let at = if index < head.len() {
            index
        } else {
            head.len()
        };
        let fragments = head.split_off(at);
        proof {
            assert(views_of(head@) =~= old(self)@.take(at as int));
            assert(views_of(fragments@) =~= old(self)@.skip(at as int));
        }
        self.fragments = head;
        Line { fragments }
    }
}

impl Default for Line {
    /// The empty line.
    fn default() -> (line: Line)
        ensures
            line@ == Seq::<FragmentView>::empty(),
    {
        let line = Line { fragments: Vec::new() };
        line
    }
}

/// Seen through a window that starts at the first column and ends at or
/// after the end of the line, every cluster is shown in full, as itself or
/// as its mark, and none is cut.
pub proof fn lemma_whole_line_window(fragments: Seq<FragmentView>, end: int)
    requires
        end >= total_width(fragments),
    ensures
        rendered(fragments, 0, end) == display_text(fragments),
{
    let len = fragments.len() as int;
    lemma_prefix_width_monotonic(fragments, 0, len);
    let cells = window_cells(fragments, len, 0, end);
    let marks = fragments.map_values(|fragment: FragmentView| shown(fragment));
    assert forall|i: int| 0 <= i < len implies cells[i] == marks[i] by {
        lemma_prefix_width_monotonic(fragments, 0, i);
        lemma_prefix_width_monotonic(fragments, i + 1, len);
    }
    assert(cells =~= marks);
}

/// A line without marks is shown as the text it spells.
pub proof fn lemma_display_text_without_marks(fragments: Seq<FragmentView>)
    requires
        forall|i: int| 0 <= i < fragments.len() ==> (#[trigger] fragments[i]).replacement is None,
    ensures
        display_text(fragments) == text_of(fragments),
{
    assert(fragments.map_values(|fragment: FragmentView| shown(fragment)) =~= graphemes_of(
        fragments,
    ));
}

/// A line none of whose clusters is replaced by a mark is shown as the text
/// it spells, through any window that starts at the first column and ends
/// at or after the end of the line.
pub proof fn lemma_round_trip(fragments: Seq<FragmentView>, end: int)
    requires
        forall|i: int| 0 <= i < fragments.len() ==> (#[trigger] fragments[i]).replacement is None,
        end >= total_width(fragments),
    ensures
        rendered(fragments, 0, end) == text_of(fragments),
{
    lemma_whole_line_window(fragments, end);
    lemma_display_text_without_marks(fragments);
}

/// Where a character put into a line becomes a cluster of its own and
/// leaves the clusters around it as they were, removing the cluster at the
/// same index again gives the fragments of the text that the line spelled
/// before; a canonical line comes back unchanged.
pub proof fn lemma_insert_then_remove(fragments: Seq<FragmentView>, ch: char, index: int)
    requires
        0 <= index <= fragments.len(),
        grapheme_clusters(text_with_insert(fragments, ch, index)) == graphemes_of(
            fragments,
        ).insert(index, seq![ch]),
    ensures
        removed(inserted(fragments, ch, index), index) == fragments_of(text_of(fragments)),
        canonical(fragments) ==> removed(inserted(fragments, ch, index), index) == fragments,
{
    let after = inserted(fragments, ch, index);
    let clusters = graphemes_of(fragments).insert(index, seq![ch]);
    assert(graphemes_of(after.remove(index)) =~= clusters.remove(index));
    assert(clusters.remove(index) =~= graphemes_of(fragments));
}

} // verus!
