//! The prompt that takes the place of the message bar while the user is
//! asked for a line of input.

use vstd::prelude::*;
use vstd::utf8::encode_utf8;
use crate::command::Edit;
use crate::line::{
    inserted,
    removed,
    rendered,
    saturate,
    text_of,
    total_width,
    FragmentView,
    Line,
};
use crate::terminal::Size;
use crate::uicomponent::{row_views, ScreenRow, ScreenRowView, UIComponent};
use crate::view::least;

verus! {

/// What a command bar holds.
pub struct CommandBarView {
    pub prompt: Seq<char>,
    pub input: Seq<FragmentView>,
    pub redraw: bool,
    pub size: Size,
}

/// A one-row component that shows a prompt and the input typed after it.
pub struct CommandBar {
    prompt: String,
    input: Line,
    redraw: bool,
    size: Size,
}

impl View for CommandBar {
    type V = CommandBarView;

    closed spec fn view(&self) -> CommandBarView {
        CommandBarView {
            prompt: self.prompt@,
            input: self.input@,
            redraw: self.redraw,
            size: self.size,
        }
    }
}

impl Default for CommandBar {
    /// A bar without prompt or input, of no size, not marked for
    /// repainting.
    fn default() -> (bar: CommandBar)
        ensures
            bar@ == (CommandBarView {
                prompt: Seq::empty(),
                input: Seq::empty(),
                redraw: false,
                size: Size { width: 0, height: 0 },
            }),
    {
        CommandBar {
            prompt: String::new(),
            input: Line::default(),
            redraw: false,
            size: Size::default(),
        }
    }
}

/// The number of columns that the prompt is taken to fill: the number of
/// bytes of its text.
pub open spec fn prompt_len(prompt: Seq<char>) -> usize {
    encode_utf8(prompt).len() as usize
}

/// The input after one edit. A character goes to the end, deleting
/// backward takes the last cluster away, and other edits do nothing.
pub open spec fn input_edited(input: Seq<FragmentView>, command: Edit) -> Seq<FragmentView> {
    match command {
        Edit::Insert(ch) => inserted(input, ch, input.len() as int),
        Edit::DeleteBackward => removed(input, input.len() - 1),
        Edit::Delete | Edit::InsertNewLine => input,
    }
}

/// Whether `after` spells what the input `before` spells after one edit: a
/// character is added at the end, deleting backward takes the last cluster
/// away, and other edits leave the input as it is.
pub open spec fn input_spells(before: Seq<FragmentView>, after: Seq<FragmentView>, command: Edit)
    -> bool {
    match command {
        Edit::Insert(ch) => text_of(after) == text_of(before).push(ch),
        Edit::DeleteBackward => if before.len() > 0 {
            text_of(after) == text_of(before.drop_last())
        } else {
            after == before
        },
        Edit::Delete | Edit::InsertNewLine => after == before,
    }
}

/// The line that a command bar shows: the prompt, and after it the end of
/// the input, as much of it as fits into the columns that the prompt leaves
/// free.
pub open spec fn command_line(state: CommandBarView) -> Seq<char> {
    let room = state.size.width.saturating_sub(prompt_len(state.prompt));
    let right = saturate(total_width(state.input));
    let left = right.saturating_sub(room);
    state.prompt + rendered(state.input, left as int, right as int)
}

impl CommandBar {
    /// Applies one edit to the input and marks the bar for repainting. A
    /// character is added to the end of the text typed so far, and deleting
    /// backward takes its last cluster away.
    pub fn handle_edit_command(&mut self, command: Edit)
        ensures
            final(self)@ == (CommandBarView {
                input: input_edited(old(self)@.input, command),
                redraw: true,
                ..old(self)@
            }),
            input_spells(old(self)@.input, final(self)@.input, command),
    {
        match command {
            Edit::Insert(char) => self.input.append_char(char),
            Edit::DeleteBackward => self.input.remove_last(),
            Edit::Delete | Edit::InsertNewLine => {},
        }
        self.mark_redraw(true);
    }

    /// Replaces the prompt and marks the bar for repainting.
    pub fn update_prompt(&mut self, prompt: &str)
        ensures
            final(self)@ == (CommandBarView { prompt: prompt@, redraw: true, ..old(self)@ }),
    {
        self.prompt = prompt.to_owned();
        self.mark_redraw(true);
    }

    /// The column at which the caret is shown: after the prompt and the
    /// clusters of the input, but no further right than the width of the
    /// bar.
    pub fn get_caret_location(&self) -> (col: usize)
        ensures
            col == least(
                prompt_len(self@.prompt).saturating_add(self@.input.len() as usize),
                self@.size.width,
            ),
    {
        let total_width = self.prompt.as_str().len().saturating_add(self.input.grapheme_count());
        if total_width <= self.size.width {
            total_width
        } else {
            self.size.width
        }
    }

    /// The text typed so far.
    pub fn get_input(&self) -> (text: String)
        ensures
            text@ == text_of(self@.input),
    {
        self.input.to_string()
    }
}

impl UIComponent for CommandBar {
    open spec fn flagged(state: CommandBarView) -> bool {
        state.redraw
    }

    open spec fn with_flag(state: CommandBarView, redraw: bool) -> CommandBarView {
        CommandBarView { redraw, ..state }
    }

    open spec fn with_size(state: CommandBarView, size: Size) -> CommandBarView {
        CommandBarView { size, ..state }
    }

    open spec fn picture(state: CommandBarView, start_row: usize) -> Seq<ScreenRowView> {
        seq![ScreenRowView { row: start_row, text: command_line(state), inverted: false }]
    }

    fn mark_redraw(&mut self, redraw: bool) {
        self.redraw = redraw;
    }

    fn needs_redraw(&self) -> (redraw: bool) {
        self.redraw
    }

    fn set_size(&mut self, size: Size) {
        self.size = size;
    }

    fn draw(&self, start_row: usize) -> (rows: Vec<ScreenRow>) {
        let input_render_len = self.size.width.saturating_sub(self.prompt.as_str().len());
        let right = self.input.width();
        let left = right.saturating_sub(input_render_len);
        let truncated_input = self.input.get_graphemes(left..right);
        let mut command_line = self.prompt.clone();
        command_line.append(truncated_input.as_str());
        let mut rows: Vec<ScreenRow> = Vec::new();
        rows.push(ScreenRow { row: start_row, text: command_line, inverted: false });
        rows
    }
}

} // verus!
