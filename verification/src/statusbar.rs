//! The row above the bottom of the screen: the name of the document,
//! whether it was modified, and where the caret stands.

use vstd::prelude::*;
use crate::editor::{DocumentStatus, DocumentStatusView};
use crate::layout::{
    decimal,
    padded_left,
    padded_right,
    push_decimal,
    push_padded_left,
    push_padded_right,
    push_spaces,
    spaces,
};
use crate::location::Location;
use crate::terminal::Size;
use crate::uicomponent::{row_views, ScreenRow, ScreenRowView, UIComponent};
use crate::unicode::push_char;

verus! {

/// What a status bar holds.
pub struct StatusBarView {
    pub document_status: DocumentStatusView,
    pub redraw: bool,
    pub size: Size,
}

/// A one-row component that reports on the document.
pub struct StatusBar {
    document_status: DocumentStatus,
    redraw: bool,
    size: Size,
}

impl View for StatusBar {
    type V = StatusBarView;

    closed spec fn view(&self) -> StatusBarView {
        StatusBarView {
            document_status: self.document_status@,
            redraw: self.redraw,
            size: self.size,
        }
    }
}

impl Default for StatusBar {
    /// A bar for an empty, unnamed document, of no size, not marked for
    /// repainting.
    fn default() -> (bar: StatusBar)
        ensures
            bar@ == (StatusBarView {
                document_status: DocumentStatusView {
                    curr_location: Location { x: 0, y: 0 },
                    filename: None,
                    is_modified: false,
                },
                redraw: false,
                size: Size { width: 0, height: 0 },
            }),
    {
        StatusBar {
            document_status: DocumentStatus::default(),
            redraw: false,
            size: Size::default(),
        }
    }
}

/// The left part of the status line: the name of the file, `unnamed` where
/// there is none, and a mark after it where the document was modified.
pub open spec fn left_section(status: DocumentStatusView) -> Seq<char> {
    let name = match status.filename {
        Some(name) => name,
        None => "unnamed"@,
    };
    if status.is_modified {
        name + " | [+]"@
    } else {
        name
    }
}

/// The right part of the status line: line and cluster of the caret, both
/// counted from one.
pub open spec fn right_section(status: DocumentStatusView) -> Seq<char> {
    decimal((status.curr_location.y + 1) as nat) + seq![':'] + decimal(
        (status.curr_location.x + 1) as nat,
    )
}

/// The status line for a bar `width` columns wide. The right half of the
/// width, rounded down, belongs to the right part and the rest to the
/// left. Each part keeps a margin of two columns at its outer edge and is
/// pushed towards it. A part that is longer than its room is not cut.
pub open spec fn status_line(status: DocumentStatusView, width: usize) -> Seq<char> {
    let right_width = width / 2;
    let left_width = width - right_width;
    spaces(2) + padded_right(left_section(status), left_width - 2) + padded_left(
        right_section(status),
        right_width - 2,
    ) + spaces(2)
}

impl StatusBar {
    /// Takes note of the status of the document. The bar is marked for
    /// repainting if the status differs from the one it had.
    pub fn update_status(&mut self, new_status: DocumentStatus)
        ensures
            final(self)@ == (StatusBarView {
                document_status: new_status@,
                redraw: old(self)@.redraw || new_status@ != old(self)@.document_status,
                ..old(self)@
            }),
    {
        let same_name = match &new_status.filename {
            Some(new_name) => match &self.document_status.filename {
                Some(old_name) => *new_name == *old_name,
                None => false,
            },
            None => self.document_status.filename.is_none(),
        };
        if same_name && new_status.curr_location == self.document_status.curr_location
            && new_status.is_modified == self.document_status.is_modified {
            return ;
        }
        self.document_status = new_status;
        self.redraw = true;
    }
}

impl UIComponent for StatusBar {
    open spec fn flagged(state: StatusBarView) -> bool {
        state.redraw
    }

    open spec fn with_flag(state: StatusBarView, redraw: bool) -> StatusBarView {
        StatusBarView { redraw, ..state }
    }

    open spec fn with_size(state: StatusBarView, size: Size) -> StatusBarView {
        StatusBarView { size, ..state }
    }

    /// The status line, in one row, with foreground and background
    /// exchanged.
    open spec fn picture(state: StatusBarView, start_row: usize) -> Seq<ScreenRowView> {
        seq![
            ScreenRowView {
                row: start_row,
                text: status_line(state.document_status, state.size.width),
                inverted: true,
            },
        ]
    }

    fn mark_redraw(&mut self, redraw: bool) {
        self.redraw = redraw;
    }

    fn needs_redraw(&self) -> (redraw: bool) {
        self.redraw
    }

    fn set_size(&mut self, size: Size) {
        self.size = size;
    }

    fn draw(&self, start_row: usize) -> (rows: Vec<ScreenRow>) {
        let mut left = String::new();
        match &self.document_status.filename {
            Some(name) => left.append(name.as_str()),
            None => left.append("unnamed"),
        }
        if self.document_status.is_modified {
            left.append(" | [+]");
        }
        let Location { x, y } = self.document_status.curr_location;
        let mut right = String::new();
        push_decimal(&mut right, y as u128 + 1);
        push_char(&mut right, ':');
        push_decimal(&mut right, x as u128 + 1);
        let right_width = self.size.width / 2;
        let left_width = self.size.width - right_width;
        let mut line = String::new();
        push_spaces(&mut line, 2);
        push_padded_right(&mut line, left.as_str(), left_width.saturating_sub(2));
        push_padded_left(&mut line, right.as_str(), right_width.saturating_sub(2));
        push_spaces(&mut line, 2);
        proof {
            let status = self@.document_status;
            assert(line@ =~= status_line(status, self@.size.width));
        }
        let mut rows: Vec<ScreenRow> = Vec::new();
        rows.push(ScreenRow { row: start_row, text: line, inverted: true });
        rows
    }
}

} // verus!
