//! The document: lines of text, the name of the file they belong to, and
//! whether they were changed since they were last written.
//!
//! The buffer stores no caret. Every operation takes the place it works on
//! as an explicit [`Location`].

use vstd::prelude::*;
use crate::line::{
    clamp,
    fragments_of,
    inserted,
    lemma_text_of_concat,
    removed,
    text_of,
    text_with_insert,
    FragmentView,
    Line,
};
use crate::location::Location;
use crate::unicode::push_char;

verus! {

/// The lines of a document, each as its fragments.
pub type Document = Seq<Seq<FragmentView>>;

/// What a buffer holds.
pub struct BufferView {
    pub lines: Document,
    pub filename: Option<Seq<char>>,
    pub is_modified: bool,
}

/// A document in memory.
pub struct Buffer {
    pub lines: Vec<Line>,
    pub filename: Option<String>,
    pub is_modified: bool,
}

/// What is to be written where, for the document to be saved.
pub struct SaveRequest {
    pub filename: String,
    pub contents: String,
}

/// What a save request holds.
pub struct SaveRequestView {
    pub filename: Seq<char>,
    pub contents: Seq<char>,
}

impl View for SaveRequest {
    type V = SaveRequestView;

    open spec fn view(&self) -> SaveRequestView {
        SaveRequestView { filename: self.filename@, contents: self.contents@ }
    }
}

/// What an optional save request holds.
pub open spec fn request_view(request: Option<SaveRequest>) -> Option<SaveRequestView> {
    match request {
        Some(request) => Some(request@),
        None => None,
    }
}

/// The text of a whole document as a file holds it.
pub open spec fn file_text(lines: Document) -> Seq<char> {
    document_text(lines, lines.len() as int)
}

/// What saving a buffer would write, and where: nothing for a buffer
/// without a file name.
pub open spec fn save_of(buffer: BufferView) -> Option<SaveRequestView> {
    match buffer.filename {
        Some(filename) => Some(SaveRequestView { filename, contents: file_text(buffer.lines) }),
        None => None,
    }
}

/// Whether a machine number can count the lines of the document and the
/// clusters of each of its lines.
pub open spec fn document_fits(lines: Document) -> bool {
    &&& lines.len() <= usize::MAX
    &&& forall|i: int| 0 <= i < lines.len() ==> (#[trigger] lines[i]).len() <= usize::MAX
}

/// What a vector of lines holds.
pub open spec fn line_views(lines: Seq<Line>) -> Document {
    lines.map_values(|line: Line| line@)
}

/// What an optional string spells.
pub open spec fn name_view(name: Option<String>) -> Option<Seq<char>> {
    match name {
        Some(text) => Some(text@),
        None => None,
    }
}

/// The number of characters before the first line feed of `text`, or its
/// length where it has none.
pub open spec fn line_len(text: Seq<char>) -> nat
    decreases text.len(),
{
    if text.len() == 0 || text[0] == '\n' {
        0
    } else {
        1 + line_len(text.drop_first())
    }
}

/// `line` without the carriage return at its end, if it has one.
pub open spec fn strip_cr(line: Seq<char>) -> Seq<char> {
    if line.len() > 0 && line.last() == '\r' {
        line.drop_last()
    } else {
        line
    }
}

/// The lines of a text. A line ends at a line feed, which is not part of
/// it, nor is a carriage return just before the line feed. The last line
/// needs no line feed, and a text that ends in one has no empty line after
/// it.
pub open spec fn text_lines(text: Seq<char>) -> Seq<Seq<char>>
    decreases text.len(),
{
    if text.len() == 0 {
        Seq::empty()
    } else {
        let n = line_len(text) as int;
        if n >= text.len() {
            seq![text]
        } else {
            seq![strip_cr(text.take(n))] + text_lines(text.skip(n + 1))
        }
    }
}

/// The fragments of each of the given lines.
pub open spec fn lines_fragments(lines: Seq<Seq<char>>) -> Document {
    lines.map_values(|line: Seq<char>| fragments_of(line))
}

/// The document that a text holds: one line of fragments for each line of
/// the text.
pub open spec fn document_of(text: Seq<char>) -> Document {
    lines_fragments(text_lines(text))
}

/// The text of the first `count` lines of a document, each followed by a
/// line feed.
pub open spec fn document_text(lines: Document, count: int) -> Seq<char>
    decreases count,
{
    if count <= 0 {
        Seq::empty()
    } else {
        document_text(lines, count - 1) + text_of(lines[count - 1]).push('\n')
    }
}

/// The lines after `ch` was inserted at `at`. On a line of the document the
/// character goes into that line; just below the last line it starts a new
/// one; further down nothing changes.
pub open spec fn with_char(lines: Document, ch: char, at: Location) -> Document {
    if at.y < lines.len() {
        lines.update(at.y as int, inserted(lines[at.y as int], ch, at.x as int))
    } else if at.y == lines.len() {
        lines.push(fragments_of(seq![ch]))
    } else {
        lines
    }
}

/// Whether `at` is a place where deleting forward finds nothing to delete:
/// below the document, or at the end of its last line.
pub open spec fn at_document_end(lines: Document, at: Location) -> bool {
    at.y >= lines.len() || (at.y + 1 == lines.len() && at.x == lines[at.y as int].len())
}

/// The lines after deleting forward at `at`. Where there is nothing to
/// delete nothing changes; at the end of any other line the next line is
/// joined onto it; elsewhere the cluster at `at` leaves its line.
pub open spec fn without_char(lines: Document, at: Location) -> Document {
    if at_document_end(lines, at) {
        lines
    } else if at.x == lines[at.y as int].len() {
        lines.update(at.y as int, lines[at.y as int] + lines[at.y + 1]).remove(at.y + 1)
    } else {
        lines.update(at.y as int, removed(lines[at.y as int], at.x as int))
    }
}

/// The lines after a line break at `at`. A line of the document is cut in
/// two at the caret; just below the last line an empty line is added at the
/// end; further down nothing changes.
pub open spec fn with_new_line(lines: Document, at: Location) -> Document {
    if at.y < lines.len() {
        let line = lines[at.y as int];
        let cut = clamp(at.x as int, line.len() as int);
        lines.update(at.y as int, line.take(cut)).insert(at.y + 1, line.skip(cut))
    } else if at.y == lines.len() {
        lines.push(Seq::empty())
    } else {
        lines
    }
}

/// The text that each line of a document spells.
pub open spec fn texts_of(lines: Document) -> Seq<Seq<char>> {
    lines.map_values(|line: Seq<FragmentView>| text_of(line))
}

/// Whether `after` spells what `before` spells with `ch` inserted at `at`:
/// the line at `at` has the character put into its text, and a line begun
/// just below the document spells the character alone.
pub open spec fn insert_spells(before: Document, after: Document, ch: char, at: Location) -> bool {
    &&& at.y < before.len() ==> text_of(after[at.y as int]) == text_with_insert(
        before[at.y as int],
        ch,
        at.x as int,
    )
    &&& at.y == before.len() ==> text_of(after[at.y as int]) == seq![ch]
}

/// Whether `after` spells what `before` spells with the cluster at `at`
/// deleted: within a line the text loses that cluster and nothing else; at
/// the end of a line that is not the last, the text of the next line
/// follows it.
pub open spec fn delete_spells(before: Document, after: Document, at: Location) -> bool {
    &&& at.y < before.len() && at.x < before[at.y as int].len() ==> text_of(after[at.y as int])
        == text_of(before[at.y as int].remove(at.x as int))
    &&& at.y + 1 < before.len() && at.x == before[at.y as int].len() ==> text_of(
        after[at.y as int],
    ) == text_of(before[at.y as int]) + text_of(before[at.y + 1])
}

/// Whether the two halves of the line broken at `at` spell, one after the
/// other, what the line spelled.
pub open spec fn break_spells(before: Document, after: Document, at: Location) -> bool {
    at.y < before.len() ==> text_of(after[at.y as int]) + text_of(after[at.y + 1]) == text_of(
        before[at.y as int],
    )
}

/// The buffer after `ch` was inserted at `at`: modified, unless `at` lies
/// too far below the document for anything to happen.
pub open spec fn char_inserted(buffer: BufferView, ch: char, at: Location) -> BufferView {
    BufferView {
        lines: with_char(buffer.lines, ch, at),
        is_modified: buffer.is_modified || at.y <= buffer.lines.len(),
        ..buffer
    }
}

/// The buffer after deleting forward at `at`: modified, unless there was
/// nothing to delete.
pub open spec fn char_deleted(buffer: BufferView, at: Location) -> BufferView {
    BufferView {
        lines: without_char(buffer.lines, at),
        is_modified: buffer.is_modified || !at_document_end(buffer.lines, at),
        ..buffer
    }
}

/// The buffer after a line break at `at`: modified, unless `at` lies too
/// far below the document for anything to happen.
pub open spec fn line_broken(buffer: BufferView, at: Location) -> BufferView {
    BufferView {
        lines: with_new_line(buffer.lines, at),
        is_modified: buffer.is_modified || at.y <= buffer.lines.len(),
        ..buffer
    }
}

/// The buffer of a file called `filename`: the lines of the text read from
/// it, or no lines where nothing was read; named, and not modified.
pub open spec fn loaded(filename: Seq<char>, contents: Option<Seq<char>>) -> BufferView {
    BufferView {
        lines: match contents {
            Some(text) => document_of(text),
            None => Seq::empty(),
        },
        filename: Some(filename),
        is_modified: false,
    }
}

/// What an optional text spells.
pub open spec fn text_view(text: Option<&str>) -> Option<Seq<char>> {
    match text {
        Some(text) => Some(text@),
        None => None,
    }
}

/// Deleting forward at the end of the last line changes nothing: not the
/// lines, not the name, not whether the document counts as modified.
pub proof fn lemma_delete_at_document_end(buffer: BufferView, at: Location)
    requires
        at.y + 1 == buffer.lines.len(),
        at.x == buffer.lines[at.y as int].len(),
    ensures
        char_deleted(buffer, at) == buffer,
{
}

/// A stretch of text without a line feed, followed by a line feed or by the
/// end of the text, is the first line of the text.
proof fn lemma_line_len(text: Seq<char>, n: int)
    requires
        0 <= n <= text.len(),
        forall|j: int| 0 <= j < n ==> text[j] != '\n',
        n < text.len() ==> text[n] == '\n',
    ensures
        line_len(text) == n,
    decreases n,
{
    if n > 0 {
        let rest = text.drop_first();
        assert forall|j: int| 0 <= j < n - 1 implies rest[j] != '\n' by {}
        lemma_line_len(rest, n - 1);
    }
}

/// Cuts a text into lines and each line into fragments.
fn read_lines(text: &str) -> (lines: Vec<Line>)
    ensures
        line_views(lines@) == document_of(text@),
        texts_of(line_views(lines@)) == text_lines(text@),
{
    let mut lines: Vec<Line> = Vec::new();
    let mut current = String::new();
    // A carriage return that was read and not yet put into `current`: it
    // belongs to the line only if something other than a line feed follows.
    let mut held = false;
    let ghost whole = text@;
    let ghost mut done: Seq<Seq<char>> = Seq::empty();
    let ghost mut start: int = 0;
    let ghost mut seen: int = 0;
    proof {
        assert(whole.skip(0) =~= whole);
    }
    for c in it: text.chars()
        invariant
            it.seq() == whole,
            seen == it.index(),
            0 <= start <= seen <= whole.len(),
            text_lines(whole) == done + text_lines(whole.skip(start)),
            line_views(lines@) == lines_fragments(done),
            texts_of(line_views(lines@)) == done,
            forall|j: int| start <= j < seen ==> whole[j] != '\n',
            whole.subrange(start, seen) == if held {
                current@.push('\r')
            } else {
                current@
            },
            !held ==> current@.len() == 0 || current@.last() != '\r',
    {
        if c == '\n' {
            let line = Line::from(current.as_str());
            proof {
                let rest = whole.skip(start);
                assert forall|j: int| 0 <= j < seen - start implies rest[j] != '\n' by {}
                lemma_line_len(rest, seen - start);
                assert(rest.take(seen - start) =~= whole.subrange(start, seen));
                assert(rest.skip(seen - start + 1) =~= whole.skip(seen + 1));
                assert(strip_cr(whole.subrange(start, seen)) == current@);
                assert(lines_fragments(done.push(current@)) =~= lines_fragments(done).push(
                    fragments_of(current@),
                ));
                done = done.push(current@);
                start = seen + 1;
            }
            lines.push(line);
            current = String::new();
            held = false;
        } else {
            if held {
                push_char(&mut current, '\r');
            }
            if c == '\r' {
                held = true;
            } else {
                push_char(&mut current, c);
                held = false;
            }
        }
        proof {
            seen = seen + 1;
        }
    }
    if held {
        push_char(&mut current, '\r');
    }
    proof {
        let rest = whole.skip(start);
        if rest.len() > 0 {
            assert forall|j: int| 0 <= j < rest.len() implies rest[j] != '\n' by {}
            lemma_line_len(rest, rest.len() as int);
        }
    }
    if !current.as_str().is_empty() {
        let line = Line::from(current.as_str());
        proof {
            assert(line_views(lines@.push(line)) =~= line_views(lines@).push(line@));
        }
        lines.push(line);
    }
    lines
}

impl View for Buffer {
    type V = BufferView;

    open spec fn view(&self) -> BufferView {
        BufferView {
            lines: line_views(self.lines@),
            filename: name_view(self.filename),
            is_modified: self.is_modified,
        }
    }
}

impl Default for Buffer {
    /// The empty, unnamed, unmodified document.
    fn default() -> (buffer: Buffer)
        ensures
            buffer@ == (BufferView { lines: Seq::empty(), filename: None, is_modified: false }),
    {
        let buffer = Buffer { lines: Vec::new(), filename: None, is_modified: false };
        assert(buffer@.lines =~= Seq::empty());
        buffer
    }
}

impl Buffer {
    /// A machine number can count the lines of a buffer and the clusters
    /// of each.
    pub proof fn lemma_document_fits(&self)
        ensures
            document_fits(self@.lines),
    {
        vstd::std_specs::vec::axiom_spec_len(&self.lines);
        assert forall|i: int| 0 <= i < self@.lines.len() implies (#[trigger] self@.lines[i]).len()
            <= usize::MAX by {
            self.lines@[i].lemma_count_fits();
        }
    }

    /// The document of a file called `filename`. With `contents`, the text
    /// read from the file, it holds the lines of that text; without, it is
    /// empty. Either way it carries the name and counts as unmodified.
    pub fn load(filename: &str, contents: Option<&str>) -> (buffer: Buffer)
        ensures
            buffer@ == loaded(filename@, text_view(contents)),
            contents matches Some(text) ==> texts_of(buffer@.lines) == text_lines(text@),
    {
        let lines = match contents {
            Some(text) => read_lines(text),
            None => Vec::new(),
        };
        assert(contents is None ==> line_views(lines@) =~= Seq::empty());
        Buffer { lines, filename: Some(filename.to_owned()), is_modified: false }
    }

    /// Whether the document has no line at all.
    pub fn is_empty(&self) -> (empty: bool)
        ensures
            empty == (self@.lines.len() == 0),
    {
        self.lines.is_empty()
    }

    /// Whether `y` is the index of the last line. An empty document treats
    /// index zero as its last line.
    pub fn is_last_line(&self, y: usize) -> (last: bool)
        ensures
            last == (if self@.lines.len() == 0 {
                y == 0
            } else {
                y == self@.lines.len() - 1
            }),
    {
        self.lines.len().saturating_sub(1) == y
    }

    /// Inserts `char` at `text_location` and marks the document as
    /// modified, unless the location lies more than one line below the
    /// document, where nothing happens.
    pub fn insert_char(&mut self, char: char, text_location: Location)
        ensures
            final(self)@ == char_inserted(old(self)@, char, text_location),
            text_location.y > old(self)@.lines.len() ==> final(self)@ == old(self)@,
            insert_spells(old(self)@.lines, final(self)@.lines, char, text_location),
    {
        let Location { x, y } = text_location;
        if y < self.lines.len() {
            self.lines[y].insert_char(char, x);
            self.is_modified = true;
            assert(self@.lines =~= with_char(old(self)@.lines, char, text_location));
        } else if y == self.lines.len() {
            let mut text = String::new();
            push_char(&mut text, char);
            self.lines.push(Line::from(text.as_str()));
            self.is_modified = true;
            assert(self@.lines =~= with_char(old(self)@.lines, char, text_location));
        }
    }

    /// Deletes forward at `location`, by the policy of [`without_char`]. The
    /// document counts as modified afterwards unless there was nothing to
    /// delete.
    pub fn delete(&mut self, location: Location)
        ensures
            final(self)@ == char_deleted(old(self)@, location),
            at_document_end(old(self)@.lines, location) ==> final(self)@ == old(self)@,
            delete_spells(old(self)@.lines, final(self)@.lines, location),
    {
        let Location { x, y } = location;
        if y >= self.lines.len() {
            return ;
        }
        let is_end_of_line = x == self.lines[y].grapheme_count();
        if is_end_of_line && self.is_last_line(y) {
            return ;
        }
        if is_end_of_line {
            let removed_line = self.lines.remove(y + 1);
            proof {
                lemma_text_of_concat(old(self)@.lines[y as int], old(self)@.lines[y + 1]);
            }
            self.lines[y].concat(&removed_line);
        } else {
            self.lines[y].remove_grapheme_at(x);
        }
        self.is_modified = true;
        assert(self@.lines =~= without_char(old(self)@.lines, location));
    }

    /// Breaks the line at `location`, by the policy of [`with_new_line`],
    /// and marks the document as modified, unless the location lies more
    /// than one line below the document, where nothing happens. The two
    /// halves of a broken line spell what the line spelled.
    pub fn insert_new_line(&mut self, location: Location)
        ensures
            final(self)@ == line_broken(old(self)@, location),
            location.y > old(self)@.lines.len() ==> final(self)@ == old(self)@,
            break_spells(old(self)@.lines, final(self)@.lines, location),
    {
        if location.y < self.lines.len() {
            let new_line = self.lines[location.y].split_off(location.x);
            proof {
                let line = old(self)@.lines[location.y as int];
                let cut = clamp(location.x as int, line.len() as int);
                lemma_text_of_concat(line.take(cut), line.skip(cut));
                assert(line.take(cut) + line.skip(cut) =~= line);
            }
            self.lines.insert(location.y + 1, new_line);
            self.is_modified = true;
        } else if location.y == self.lines.len() {
            self.lines.push(Line::default());
            self.is_modified = true;
        }
        assert(self@.lines =~= with_new_line(old(self)@.lines, location));
    }

    /// The text of the document as a file holds it: every line followed by
    /// a line feed.
    pub fn contents(&self) -> (text: String)
        ensures
            text@ == file_text(self@.lines),
    {
        let mut content = String::new();
        let mut i: usize = 0;
        while i < self.lines.len()
            invariant
                i <= self.lines.len(),
                content@ == document_text(self@.lines, i as int),
            decreases self.lines.len() - i,
        {
            let line = self.lines[i].to_string();
            content.append(line.as_str());
            push_char(&mut content, '\n');
            i += 1;
        }
        content
    }

    /// What saving the document would write, and where. A document without
    /// a file name has nothing to write.
    pub fn save_request(&self) -> (request: Option<SaveRequest>)
        ensures
            request_view(request) == save_of(self@),
    {
        match &self.filename {
            None => None,
            Some(name) => Some(SaveRequest { filename: name.clone(), contents: self.contents() }),
        }
    }

    /// Records that the document was written out: it no longer counts as
    /// modified.
    pub fn mark_saved(&mut self)
        ensures
            final(self)@ == (BufferView { is_modified: false, ..old(self)@ }),
    {
        self.is_modified = false;
    }
}

} // verus!
