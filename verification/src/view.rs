//! The main text area: a document, a caret in it, and the window through
//! which the screen looks at it.
//!
//! The caret is a place in the text. The window is a rectangle of rendered
//! cells. After every movement and every edit the window is moved, if need
//! be, so that the cell of the caret lies inside it.

use vstd::prelude::*;
use vstd::view::View as _;
use crate::buffer::{
    break_spells,
    char_deleted,
    char_inserted,
    file_text,
    line_broken,
    loaded,
    request_view,
    save_of,
    text_view,
    delete_spells,
    document_fits,
    insert_spells,
    text_lines,
    texts_of,
    Buffer,
    BufferView,
    Document,
    SaveRequest,
    SaveRequestView,
};
use crate::command::{Edit, Move};
use crate::editor::{DocumentStatus, DocumentStatusView};
use crate::layout::{push_spaces, spaces};
use crate::line::{prefix_width, rendered, saturate};
use crate::location::Location;
use crate::terminal::{Position, Size};
use crate::uicomponent::{row_views, ScreenRow, ScreenRowView, UIComponent};
use crate::unicode::push_char;

verus! {

/// What a view holds.
pub struct ViewState {
    pub buffer: BufferView,
    pub redraw: bool,
    pub size: Size,
    pub location: Location,
    pub scroll_offset: Position,
}

/// The main text area.
pub struct View {
    buffer: Buffer,
    redraw: bool,
    size: Size,
    location: Location,
    scroll_offset: Position,
}

/// The smaller of two counts.
pub open spec fn least(a: usize, b: usize) -> usize {
    if a <= b {
        a
    } else {
        b
    }
}

/// The number of clusters in line `y`; zero where the document has no such
/// line.
pub open spec fn line_length(lines: Document, y: usize) -> usize {
    if y < lines.len() {
        lines[y as int].len() as usize
    } else {
        0
    }
}

/// Whether `at` is a place of the document: on one of its lines or just
/// below the last, and within the line or at its end.
pub open spec fn caret_in_text(lines: Document, at: Location) -> bool {
    at.y <= lines.len() && at.x <= line_length(lines, at.y)
}

/// The place of the document nearest to `at`: no lower than just below the
/// last line, and no further right than the end of the line.
pub open spec fn snapped(lines: Document, at: Location) -> Location {
    let y = least(at.y, lines.len() as usize);
    Location { x: least(at.x, line_length(lines, y)), y }
}

/// The caret `by` lines further up, stopping at the first line. A shorter
/// line pulls the caret left to its end.
pub open spec fn moved_up(lines: Document, at: Location, by: usize) -> Location {
    let y = at.y.saturating_sub(by);
    Location { x: least(at.x, line_length(lines, y)), y }
}

/// The caret `by` lines further down, stopping just below the last line. A
/// shorter line pulls the caret left to its end.
pub open spec fn moved_down(lines: Document, at: Location, by: usize) -> Location {
    let y = least(at.y.saturating_add(by), lines.len() as usize);
    Location { x: least(at.x, line_length(lines, y)), y }
}

/// The caret after one movement in a window of `height` rows.
pub open spec fn moved(lines: Document, height: usize, at: Location, direction: Move) -> Location {
    match direction {
        Move::Up => moved_up(lines, at, 1),
        Move::Down => moved_down(lines, at, 1),
        Move::PageUp => moved_up(lines, at, height.saturating_sub(1)),
        Move::PageDown => moved_down(lines, at, height.saturating_sub(1)),
        Move::Left => Location { x: at.x.saturating_sub(1), ..at },
        Move::Right => Location {
            x: least(at.x.saturating_add(1), line_length(lines, at.y)),
            ..at
        },
        Move::LeftUp => if at.x > 0 {
            Location { x: (at.x - 1) as usize, ..at }
        } else {
            let y = at.y.saturating_sub(1);
            Location { x: line_length(lines, y), y }
        },
        Move::RightUp => if at.x < line_length(lines, at.y) {
            Location { x: (at.x + 1) as usize, ..at }
        } else {
            Location { x: 0, y: moved_down(lines, at, 1).y }
        },
        Move::StartOfLine => Location { x: 0, ..at },
        Move::EndOfLine => Location { x: line_length(lines, at.y), ..at },
    }
}

/// The cell of the rendered document at which the caret stands: the row of
/// its line, and the column at which its cluster starts.
pub open spec fn caret_cell(lines: Document, at: Location) -> Position {
    Position {
        col: if at.y < lines.len() {
            saturate(prefix_width(lines[at.y as int], at.x as int))
        } else {
            0
        },
        row: at.y,
    }
}

/// Where a window of `extent` cells that starts at `offset` must start to
/// show `caret`: where it is, if the caret is inside; at the caret
/// otherwise.
pub open spec fn snap(offset: usize, caret: usize, extent: usize) -> usize {
    if caret >= offset.saturating_add(extent) || caret < offset {
        caret
    } else {
        offset
    }
}

/// The view after its window was moved to show the caret. The view is
/// marked for repainting whether or not the window moved.
pub open spec fn scrolled(state: ViewState) -> ViewState {
    let caret = caret_cell(state.buffer.lines, state.location);
    ViewState {
        redraw: true,
        scroll_offset: Position {
            col: snap(state.scroll_offset.col, caret.col, state.size.width),
            row: snap(state.scroll_offset.row, caret.row, state.size.height),
        },
        ..state
    }
}

/// Whether the cell of the caret lies inside the window.
pub open spec fn caret_visible(state: ViewState) -> bool {
    let caret = caret_cell(state.buffer.lines, state.location);
    &&& state.scroll_offset.row <= caret.row < state.scroll_offset.row + state.size.height
    &&& state.scroll_offset.col <= caret.col < state.scroll_offset.col + state.size.width
}

/// The view after one movement of the caret.
pub open spec fn view_moved(state: ViewState, direction: Move) -> ViewState {
    scrolled(
        ViewState {
            location: moved(state.buffer.lines, state.size.height, state.location, direction),
            ..state
        },
    )
}

/// The view after the caret was pulled back into the text and the window
/// moved to show it.
pub open spec fn settled(state: ViewState) -> ViewState {
    scrolled(ViewState { location: snapped(state.buffer.lines, state.location), ..state })
}

/// The view after `ch` was typed. The caret steps right if the line now
/// counts a different number of clusters, and stays where the character
/// joined a cluster that was there.
pub open spec fn typed(state: ViewState, ch: char) -> ViewState {
    let buffer = char_inserted(state.buffer, ch, state.location);
    let grown = line_length(buffer.lines, state.location.y) != line_length(
        state.buffer.lines,
        state.location.y,
    );
    let after = ViewState { buffer, ..state };
    if grown {
        view_moved(after, Move::Right)
    } else {
        after
    }
}

/// The view after the line was broken at the caret, which then stands at
/// the start of the line below.
pub open spec fn line_split(state: ViewState) -> ViewState {
    let buffer = line_broken(state.buffer, state.location);
    ViewState {
        buffer,
        location: Location { x: 0, y: moved_down(buffer.lines, state.location, 1).y },
        ..state
    }
}

/// The view after deleting forward at the caret.
pub open spec fn deleted_forward(state: ViewState) -> ViewState {
    ViewState { buffer: char_deleted(state.buffer, state.location), ..state }
}

/// The view after deleting backward: the caret steps left, to the end of
/// the line above where it stood at the start of a line, and what it then
/// stands on is deleted. At the start of the document nothing is deleted.
pub open spec fn deleted_backward(state: ViewState) -> ViewState {
    if state.location.x != 0 || state.location.y != 0 {
        deleted_forward(view_moved(state, Move::LeftUp))
    } else {
        state
    }
}

/// The view after one edit. Whatever the edit did, the caret is then
/// pulled back into the text and the window moved to show it.
pub open spec fn view_edited(state: ViewState, edit: Edit) -> ViewState {
    settled(
        match edit {
            Edit::Insert(ch) => typed(state, ch),
            Edit::InsertNewLine => line_split(state),
            Edit::Delete => deleted_forward(state),
            Edit::DeleteBackward => deleted_backward(state),
        },
    )
}

/// The name shown in the welcome banner.
pub const NAME: &'static str = "editor_core";

/// The version shown in the welcome banner.
pub const VERSION: &'static str = "0.1.0";

/// The welcome banner without its margin.
pub open spec fn banner() -> Seq<char> {
    NAME@ + " editior --version "@ + VERSION@
}

/// The welcome line for a window `width` columns wide: a tilde, then the
/// banner, centred as far as the width allows, and all of it cut off at
/// the width.
pub open spec fn welcome_text(width: usize) -> Seq<char> {
    let line = seq!['~'] + spaces((width - banner().len() - 1) / 2) + banner();
    if width < line.len() {
        line.take(width as int)
    } else {
        line
    }
}

/// The text in row `offset` of the window: the part of its line that the
/// window shows; below the document a tilde, except that an empty document
/// shows the welcome line a third of the way down.
pub open spec fn window_row(state: ViewState, offset: usize) -> Seq<char> {
    let lines = state.buffer.lines;
    let index = offset.saturating_add(state.scroll_offset.row);
    if index < lines.len() {
        rendered(
            lines[index as int],
            state.scroll_offset.col as int,
            state.scroll_offset.col.saturating_add(state.size.width) as int,
        )
    } else if offset == state.size.height / 3 && lines.len() == 0 {
        welcome_text(state.size.width)
    } else {
        seq!['~']
    }
}

/// The number of rows painted from `start_row` down by a component
/// `height` rows high: all of them, as far as rows can be numbered.
pub open spec fn rows_from(start_row: usize, height: usize) -> int {
    start_row.saturating_add(height) - start_row
}

/// The rows that a view paints from `start_row` down.
pub open spec fn view_picture(state: ViewState, start_row: usize) -> Seq<ScreenRowView> {
    Seq::new(
        rows_from(start_row, state.size.height) as nat,
        |offset: int|
            ScreenRowView {
                row: (start_row + offset) as usize,
                text: window_row(state, offset as usize),
                inverted: false,
            },
    )
}

/// What the status bar is told about the document of a view.
pub open spec fn status_of(state: ViewState) -> DocumentStatusView {
    DocumentStatusView {
        curr_location: state.location,
        filename: state.buffer.filename,
        is_modified: state.buffer.is_modified,
    }
}

/// The view after its document was written to the file `filename`: the
/// document carries that name and no longer counts as modified.
pub open spec fn written(state: ViewState, filename: Seq<char>) -> ViewState {
    ViewState {
        buffer: BufferView { filename: Some(filename), is_modified: false, ..state.buffer },
        ..state
    }
}

/// Whether the document of `after` spells what that of `before` spells
/// after one edit at the caret: a typed character is put into the text of
/// its line, a deleted cluster leaves it, a broken line is spelled by its
/// two halves, and deleting backward deletes where the caret stands after
/// its step to the left.
pub open spec fn edit_spells(before: ViewState, after: ViewState, edit: Edit) -> bool {
    let lines = before.buffer.lines;
    let at = before.location;
    match edit {
        Edit::Insert(ch) => insert_spells(lines, after.buffer.lines, ch, at),
        Edit::InsertNewLine => break_spells(lines, after.buffer.lines, at),
        Edit::Delete => delete_spells(lines, after.buffer.lines, at),
        Edit::DeleteBackward => at.x != 0 || at.y != 0 ==> delete_spells(
            lines,
            after.buffer.lines,
            moved(lines, before.size.height, at, Move::LeftUp),
        ),
    }
}

impl vstd::view::View for View {
    type V = ViewState;

    closed spec fn view(&self) -> ViewState {
        ViewState {
            buffer: self.buffer@,
            redraw: self.redraw,
            size: self.size,
            location: self.location,
            scroll_offset: self.scroll_offset,
        }
    }
}

impl Default for View {
    /// An empty document seen through a window of no size.
    fn default() -> (view: View)
        ensures
            view@ == (ViewState {
                buffer: BufferView { lines: Seq::empty(), filename: None, is_modified: false },
                redraw: false,
                size: Size { width: 0, height: 0 },
                location: Location { x: 0, y: 0 },
                scroll_offset: Position { col: 0, row: 0 },
            }),
    {
        View {
            buffer: Buffer::default(),
            redraw: false,
            size: Size::default(),
            location: Location::default(),
            scroll_offset: Position::default(),
        }
    }
}

/// After its window was moved, a view of some width and height shows the
/// caret.
pub proof fn lemma_scrolled_shows_caret(state: ViewState)
    requires
        state.size.width > 0,
        state.size.height > 0,
    ensures
        caret_visible(scrolled(state)),
{
}

/// After any movement, a view of some width and height shows the caret.
pub proof fn lemma_move_shows_caret(state: ViewState, direction: Move)
    requires
        state.size.width > 0,
        state.size.height > 0,
    ensures
        caret_visible(view_moved(state, direction)),
{
}

/// After any edit, the caret stands in the text, and a view of some width
/// and height shows it.
pub proof fn lemma_edit_shows_caret(state: ViewState, edit: Edit)
    ensures
        caret_in_text(view_edited(state, edit).buffer.lines, view_edited(state, edit).location),
        view_edited(state, edit).size == state.size,
        state.size.width > 0 && state.size.height > 0 ==> caret_visible(
            view_edited(state, edit),
        ),
{
}

/// After a movement up or down, by a line or by a page, the caret stands
/// within its line or at its end.
pub proof fn lemma_vertical_move_snaps(
    lines: Document,
    height: usize,
    at: Location,
    direction: Move,
)
    requires
        direction is Up || direction is Down || direction is PageUp || direction is PageDown,
    ensures
        moved(lines, height, at, direction).x <= line_length(
            lines,
            moved(lines, height, at, direction).y,
        ),
{
}

/// A caret that stood in the text still does after any movement, provided
/// the lines are of a length that a machine number can hold.
pub proof fn lemma_move_keeps_caret_in_text(
    lines: Document,
    height: usize,
    at: Location,
    direction: Move,
)
    requires
        caret_in_text(lines, at),
        lines.len() <= usize::MAX,
    ensures
        caret_in_text(lines, moved(lines, height, at, direction)),
{
}

impl View {
    /// A machine number can count the lines of the document of a view and
    /// the clusters of each, so that the counts in [`moved`], [`snapped`]
    /// and [`line_length`] are the true ones.
    pub proof fn lemma_document_fits(&self)
        ensures
            document_fits(self@.buffer.lines),
    {
        self.buffer.lemma_document_fits();
    }

    /// The number of rows of the window.
    fn editor_height(&self) -> (height: usize)
        ensures
            height == self@.size.height,
    {
        self.size.height
    }

    /// The number of clusters in line `y`; zero where there is no such
    /// line.
    fn line_len(&self, y: usize) -> (len: usize)
        ensures
            len == line_length(self@.buffer.lines, y),
    {
        if y < self.buffer.lines.len() {
            self.buffer.lines[y].grapheme_count()
        } else {
            0
        }
    }

    fn move_up(&mut self, line: usize)
        ensures
            final(self)@ == (ViewState {
                location: moved_up(old(self)@.buffer.lines, old(self)@.location, line),
                ..old(self)@
            }),
    {
        self.location.y = self.location.y.saturating_sub(line);
        self.snap_horizontal();
    }

    fn move_down(&mut self, line: usize)
        ensures
            final(self)@ == (ViewState {
                location: moved_down(old(self)@.buffer.lines, old(self)@.location, line),
                ..old(self)@
            }),
    {
        self.location.y = self.location.y.saturating_add(line);
        self.snap_vertical();
        self.snap_horizontal();
    }

    fn move_left(&mut self)
        ensures
            final(self)@ == (ViewState {
                location: moved(
                    old(self)@.buffer.lines,
                    old(self)@.size.height,
                    old(self)@.location,
                    Move::Left,
                ),
                ..old(self)@
            }),
    {
        self.location.x = self.location.x.saturating_sub(1);
    }

    fn move_left_y(&mut self)
        ensures
            final(self)@ == (ViewState {
                location: moved(
                    old(self)@.buffer.lines,
                    old(self)@.size.height,
                    old(self)@.location,
                    Move::LeftUp,
                ),
                ..old(self)@
            }),
    {
        if self.location.x > 0 {
            self.location.x = self.location.x - 1;
        } else {
            self.move_up(1);
            self.move_to_end_of_line();
        }
    }

    fn move_right(&mut self)
        ensures
            final(self)@ == (ViewState {
                location: moved(
                    old(self)@.buffer.lines,
                    old(self)@.size.height,
                    old(self)@.location,
                    Move::Right,
                ),
                ..old(self)@
            }),
    {
        let len = self.line_len(self.location.y);
        let next = self.location.x.saturating_add(1);
        self.location.x = if next <= len {
            next
        } else {
            len
        };
    }

    fn move_right_y(&mut self)
        ensures
            final(self)@ == (ViewState {
                location: moved(
                    old(self)@.buffer.lines,
                    old(self)@.size.height,
                    old(self)@.location,
                    Move::RightUp,
                ),
                ..old(self)@
            }),
    {
        let len = self.line_len(self.location.y);
        if self.location.x < len {
            self.location.x = self.location.x + 1;
        } else {
            self.move_down(1);
            self.move_to_start_of_line();
        }
    }

    fn move_to_start_of_line(&mut self)
        ensures
            final(self)@ == (ViewState {
                location: Location { x: 0, ..old(self)@.location },
                ..old(self)@
            }),
    {
        self.location.x = 0;
    }

    fn move_to_end_of_line(&mut self)
        ensures
            final(self)@ == (ViewState {
                location: Location {
                    x: line_length(old(self)@.buffer.lines, old(self)@.location.y),
                    ..old(self)@.location
                },
                ..old(self)@
            }),
    {
        self.location.x = self.line_len(self.location.y);
    }

    /// Pulls the caret left to the end of its line.
    fn snap_horizontal(&mut self)
        ensures
            final(self)@ == (ViewState {
                location: Location {
                    x: least(
                        old(self)@.location.x,
                        line_length(old(self)@.buffer.lines, old(self)@.location.y),
                    ),
                    ..old(self)@.location
                },
                ..old(self)@
            }),
    {
        let len = self.line_len(self.location.y);
        if self.location.x > len {
            self.location.x = len;
        }
    }

    /// Pulls the caret up to just below the last line.
    fn snap_vertical(&mut self)
        ensures
            final(self)@ == (ViewState {
                location: Location {
                    y: least(old(self)@.location.y, old(self)@.buffer.lines.len() as usize),
                    ..old(self)@.location
                },
                ..old(self)@
            }),
    {
        if self.location.y > self.buffer.lines.len() {
            self.location.y = self.buffer.lines.len();
        }
    }

    /// The cell of the rendered document at which the caret stands.
    fn text_location_to_position(&self) -> (position: Position)
        ensures
            position == caret_cell(self@.buffer.lines, self@.location),
    {
        let Location { x, y } = self.location;
        let col = if y < self.buffer.lines.len() {
            self.buffer.lines[y].width_until(x)
        } else {
            0
        };
        Position { col, row: y }
    }

    /// Moves the window, if need be, so that it shows the caret: on each
    /// axis by itself, a window that does not hold the caret is made to
    /// start at it.
    fn update_scroll_offset(&mut self)
        ensures
            final(self)@ == scrolled(old(self)@),
    {
        let editor_height = self.editor_height();
        let Size { width, .. } = self.size;
        let Position { col: x, row: y } = self.text_location_to_position();
        let Position { col: mut scroll_x, row: mut scroll_y } = self.scroll_offset;
        if x >= scroll_x.saturating_add(width) {
            scroll_x = x;
        } else if x < scroll_x {
            scroll_x = x;
        }
        if y >= scroll_y.saturating_add(editor_height) {
            scroll_y = y;
        } else if y < scroll_y {
            scroll_y = y;
        }
        self.redraw = true;
        if !(scroll_x == self.scroll_offset.col && scroll_y == self.scroll_offset.row) {
            self.scroll_offset = Position { col: scroll_x, row: scroll_y };
        }
    }

    /// Moves the caret and then the window, so that the caret is shown. In
    /// a window of some width and height the caret is then visible. After a
    /// movement up or down the caret stands within its line, and a caret
    /// that stood in the text still does after any movement.
    pub fn handle_move_command(&mut self, direction: Move)
        ensures
            final(self)@ == view_moved(old(self)@, direction),
            final(self)@.buffer == old(self)@.buffer,
            document_fits(final(self)@.buffer.lines),
            final(self)@.size == old(self)@.size,
            final(self)@.size.width > 0 && final(self)@.size.height > 0 ==> caret_visible(
                final(self)@,
            ),
            direction is Up || direction is Down || direction is PageUp || direction is PageDown
                ==> final(self)@.location.x <= line_length(
                final(self)@.buffer.lines,
                final(self)@.location.y,
            ),
            caret_in_text(old(self)@.buffer.lines, old(self)@.location) ==> caret_in_text(
                final(self)@.buffer.lines,
                final(self)@.location,
            ),
    {
        match direction {
            Move::Up => self.move_up(1),
            Move::Down => self.move_down(1),
            Move::PageUp => self.move_up(self.editor_height().saturating_sub(1)),
            Move::PageDown => self.move_down(self.editor_height().saturating_sub(1)),
            Move::Left => self.move_left(),
            Move::LeftUp => self.move_left_y(),
            Move::RightUp => self.move_right_y(),
            Move::Right => self.move_right(),
            Move::StartOfLine => self.move_to_start_of_line(),
            Move::EndOfLine => self.move_to_end_of_line(),
        }
        self.update_scroll_offset();
        proof {
            self.lemma_document_fits();
        }
    }

    fn insert_char(&mut self, char: char)
        ensures
            final(self)@ == typed(old(self)@, char),
            edit_spells(old(self)@, final(self)@, Edit::Insert(char)),
    {
        let y = self.location.y;
        let old_graphemes = self.line_len(y);
        self.buffer.insert_char(char, self.location);
        let new_graphemes = self.line_len(y);
        if old_graphemes != new_graphemes {
            self.handle_move_command(Move::Right);
        }
    }

    fn delete_backward(&mut self)
        ensures
            final(self)@ == deleted_backward(old(self)@),
            edit_spells(old(self)@, final(self)@, Edit::DeleteBackward),
    {
        if self.location.x != 0 || self.location.y != 0 {
            self.handle_move_command(Move::LeftUp);
            self.delete();
        }
    }

    fn delete(&mut self)
        ensures
            final(self)@ == deleted_forward(old(self)@),
            edit_spells(old(self)@, final(self)@, Edit::Delete),
    {
        self.buffer.delete(self.location);
    }

    fn insert_new_line(&mut self)
        ensures
            final(self)@ == line_split(old(self)@),
            edit_spells(old(self)@, final(self)@, Edit::InsertNewLine),
    {
        self.buffer.insert_new_line(self.location);
        self.move_down(1);
        self.move_to_start_of_line();
    }

    /// Pulls the caret back into the text and moves the window to show it.
    fn settle(&mut self)
        ensures
            final(self)@ == settled(old(self)@),
    {
        self.snap_vertical();
        self.snap_horizontal();
        self.update_scroll_offset();
    }

    /// Carries out one edit at the caret, then pulls the caret back into
    /// the text and moves the window to show it. The caret then stands in
    /// the text, and in a window of some width and height it is visible.
    pub fn handle_edit_command(&mut self, command: Edit)
        ensures
            final(self)@ == view_edited(old(self)@, command),
            final(self)@.size == old(self)@.size,
            edit_spells(old(self)@, final(self)@, command),
            document_fits(final(self)@.buffer.lines),
            caret_in_text(final(self)@.buffer.lines, final(self)@.location),
            final(self)@.size.width > 0 && final(self)@.size.height > 0 ==> caret_visible(
                final(self)@,
            ),
    {
        match command {
            Edit::Insert(char) => self.insert_char(char),
            Edit::InsertNewLine => self.insert_new_line(),
            Edit::Delete => self.delete(),
            Edit::DeleteBackward => self.delete_backward(),
        }
        self.settle();
        proof {
            self.lemma_document_fits();
        }
    }

    /// Replaces the document by that of the file `file`: the lines of
    /// `contents`, the text read from it, or no lines where nothing could
    /// be read. The caret is pulled back into the new text.
    pub fn load(&mut self, file: &str, contents: Option<&str>)
        ensures
            final(self)@ == settled(
                ViewState { buffer: loaded(file@, text_view(contents)), ..old(self)@ },
            ),
            contents matches Some(text) ==> texts_of(final(self)@.buffer.lines) == text_lines(
                text@,
            ),
            document_fits(final(self)@.buffer.lines),
    {
        self.buffer = Buffer::load(file, contents);
        self.settle();
        proof {
            self.lemma_document_fits();
        }
    }

    /// What saving the document under its own name would write, and where;
    /// nothing where the document has no name.
    pub fn save(&self) -> (request: Option<SaveRequest>)
        ensures
            request_view(request) == save_of(self@.buffer),
    {
        self.buffer.save_request()
    }

    /// What saving the document under the name `filename` would write.
    pub fn save_as(&self, filename: String) -> (request: SaveRequest)
        ensures
            request@ == (SaveRequestView {
                filename: filename@,
                contents: file_text(self@.buffer.lines),
            }),
    {
        SaveRequest { filename, contents: self.buffer.contents() }
    }

    /// Records that the document was written to the file `filename`.
    pub fn saved(&mut self, filename: &str)
        ensures
            final(self)@ == written(old(self)@, filename@),
    {
        self.buffer.filename = Some(filename.to_owned());
        self.buffer.mark_saved();
    }

    /// Whether the document has no file name.
    pub fn is_unnamed(&self) -> (unnamed: bool)
        ensures
            unnamed == (self@.buffer.filename is None),
    {
        self.buffer.filename.is_none()
    }

    /// Where on the screen the caret is shown: its cell, counted from the
    /// top left of the window.
    pub fn get_caret_location(&self) -> (position: Position)
        ensures
            position.col == caret_cell(self@.buffer.lines, self@.location).col.saturating_sub(
                self@.scroll_offset.col,
            ),
            position.row == caret_cell(self@.buffer.lines, self@.location).row.saturating_sub(
                self@.scroll_offset.row,
            ),
    {
        self.text_location_to_position().subtract(&self.scroll_offset)
    }

    /// What the status bar is to show about the document.
    pub fn get_status(&self) -> (status: DocumentStatus)
        ensures
            status@ == status_of(self@),
    {
        DocumentStatus {
            is_modified: self.buffer.is_modified,
            curr_location: self.location,
            filename: self.buffer.filename.clone(),
        }
    }

    /// Whether the document was changed since it was last written.
    pub fn is_modified(&self) -> (modified: bool)
        ensures
            modified == self@.buffer.is_modified,
    {
        self.buffer.is_modified
    }

    /// The welcome line for a window `width` columns wide.
    fn build_welcome_message(width: usize) -> (message: String)
        ensures
            message@ == welcome_text(width),
    {
        let mut title = String::new();
        title.append(NAME);
        title.append(" editior --version ");
        title.append(VERSION);
        let len = title.as_str().unicode_len();
        let padding = width.saturating_sub(len).saturating_sub(1) / 2;
        let mut line = String::new();
        push_char(&mut line, '~');
        push_spaces(&mut line, padding);
        line.append(title.as_str());
        let ghost full = line@;
        let mut message = String::new();
        let mut taken: usize = 0;
        for c in it: line.as_str().chars()
            invariant
                it.seq() == full,
                taken <= width,
                taken <= it.index(),
                taken < width ==> taken == it.index(),
                message@ == full.take(taken as int),
        {
            if taken < width {
                push_char(&mut message, c);
                taken += 1;
            }
        }
        message
    }

    /// One painted row of the view.
    fn render_line(at: usize, line: String) -> (row: ScreenRow)
        ensures
            row@ == (ScreenRowView { row: at, text: line@, inverted: false }),
    {
        ScreenRow { row: at, text: line, inverted: false }
    }
}

impl UIComponent for View {
    open spec fn flagged(state: ViewState) -> bool {
        state.redraw
    }

    open spec fn with_flag(state: ViewState, redraw: bool) -> ViewState {
        ViewState { redraw, ..state }
    }

    /// A view that is given a size moves its window to show the caret.
    open spec fn with_size(state: ViewState, size: Size) -> ViewState {
        scrolled(ViewState { size, ..state })
    }

    open spec fn picture(state: ViewState, start_row: usize) -> Seq<ScreenRowView> {
        view_picture(state, start_row)
    }

    fn mark_redraw(&mut self, redraw: bool) {
        self.redraw = redraw;
    }

    fn needs_redraw(&self) -> (redraw: bool) {
        self.redraw
    }

    fn set_size(&mut self, size: Size) {
        self.size = size;
        self.update_scroll_offset();
    }

    fn draw(&self, start_row: usize) -> (rows: Vec<ScreenRow>) {
        let Size { width, height } = self.size;
        let end_y = start_row.saturating_add(height);
        let Position { col: scroll_x, row: scroll_y } = self.scroll_offset;
        let vertical_center = height / 3;
        let mut rows: Vec<ScreenRow> = Vec::new();
        let mut current_row = start_row;
        while current_row < end_y
            invariant
                start_row <= current_row <= end_y,
                end_y == start_row.saturating_add(height),
                width == self@.size.width,
                height == self@.size.height,
                scroll_x == self@.scroll_offset.col,
                scroll_y == self@.scroll_offset.row,
                vertical_center == height / 3,
                rows@.len() == current_row - start_row,
                forall|k: int|
                    0 <= k < rows@.len() ==> (#[trigger] rows@[k])@ == view_picture(
                        self@,
                        start_row,
                    )[k],
            decreases end_y - current_row,
        {
            let offset = current_row - start_row;
            let line_index = offset.saturating_add(scroll_y);
            let text = if line_index < self.buffer.lines.len() {
                let right = scroll_x.saturating_add(width);
                self.buffer.lines[line_index].get_graphemes(scroll_x..right)
            } else if offset == vertical_center && self.buffer.is_empty() {
                Self::build_welcome_message(width)
            } else {
                let mut tilde = String::new();
                push_char(&mut tilde, '~');
                tilde
            };
            rows.push(Self::render_line(current_row, text));
            current_row += 1;
        }
        rows
    }
}

} // verus!
