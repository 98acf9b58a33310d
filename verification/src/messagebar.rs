//! The bottom row of the screen, where notices to the user appear.

use vstd::prelude::*;
use crate::terminal::Size;
use crate::uicomponent::{ScreenRow, ScreenRowView, UIComponent};

verus! {

/// What a message bar holds.
pub struct MessageBarView {
    pub message: Option<Seq<char>>,
    pub redraw: bool,
    pub size: Size,
}

/// A one-row component that shows the latest notice.
pub struct MessageBar {
    message: Option<String>,
    redraw: bool,
    size: Size,
}

impl View for MessageBar {
    type V = MessageBarView;

    closed spec fn view(&self) -> MessageBarView {
        MessageBarView {
            message: match self.message {
                Some(text) => Some(text@),
                None => None,
            },
            redraw: self.redraw,
            size: self.size,
        }
    }
}

impl Default for MessageBar {
    /// A bar without a notice, of no size, not marked for repainting.
    fn default() -> (bar: MessageBar)
        ensures
            bar@ == (MessageBarView {
                message: None,
                redraw: false,
                size: Size { width: 0, height: 0 },
            }),
    {
        MessageBar { message: None, redraw: false, size: Size::default() }
    }
}

/// The text that a message bar shows: its notice, or nothing.
pub open spec fn message_text(state: MessageBarView) -> Seq<char> {
    match state.message {
        Some(text) => text,
        None => Seq::empty(),
    }
}

impl MessageBar {
    /// Replaces the notice and marks the bar for repainting.
    pub fn update_message(&mut self, msg: &str)
        ensures
            final(self)@ == (MessageBarView { message: Some(msg@), redraw: true, ..old(self)@ }),
    {
        self.message = Some(msg.to_owned());
        self.redraw = true;
    }
}

impl UIComponent for MessageBar {
    open spec fn flagged(state: MessageBarView) -> bool {
        state.redraw
    }

    open spec fn with_flag(state: MessageBarView, redraw: bool) -> MessageBarView {
        MessageBarView { redraw, ..state }
    }

    open spec fn with_size(state: MessageBarView, size: Size) -> MessageBarView {
        MessageBarView { size, ..state }
    }

    open spec fn picture(state: MessageBarView, start_row: usize) -> Seq<ScreenRowView> {
        seq![ScreenRowView { row: start_row, text: message_text(state), inverted: false }]
    }

    fn mark_redraw(&mut self, redraw: bool) {
        self.redraw = redraw;
    }

    fn needs_redraw(&self) -> (redraw: bool) {
        self.redraw
    }

    fn set_size(&mut self, size: Size) {
        self.size = size;
    }

    fn draw(&self, start_row: usize) -> (rows: Vec<ScreenRow>) {
        let text = match &self.message {
            Some(message) => message.clone(),
            None => String::new(),
        };
        let mut rows: Vec<ScreenRow> = Vec::new();
        rows.push(ScreenRow { row: start_row, text, inverted: false });
        rows
    }
}

} // verus!
