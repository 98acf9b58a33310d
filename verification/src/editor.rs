//! The editor as a whole: the document view, the bars around it, and the
//! decisions that tie them together.

use vstd::prelude::*;
use crate::buffer::{file_text, request_view, save_of, text_view, SaveRequest, SaveRequestView};
use crate::buffer::loaded;
use crate::command::{event_command, Action, Command, Edit, Event};
use crate::commandbar::{input_edited, input_spells, prompt_len, CommandBar, CommandBarView};
use crate::line::text_of;
use crate::location::Location;
use crate::messagebar::{MessageBar, MessageBarView};
use crate::statusbar::{StatusBar, StatusBarView};
use crate::terminal::{Position, Size};
use crate::uicomponent::{row_views, ScreenRow, ScreenRowView, UIComponent};
use crate::view;
use crate::view::{
    caret_cell,
    edit_spells,
    least,
    scrolled,
    settled,
    status_of,
    view_edited,
    view_moved,
    view_picture,
    written,
    ViewState,
};

verus! {

/// What the status bar reports about the document.
pub struct DocumentStatus {
    pub curr_location: Location,
    pub filename: Option<String>,
    pub is_modified: bool,
}

/// What a document status holds.
pub struct DocumentStatusView {
    pub curr_location: Location,
    pub filename: Option<Seq<char>>,
    pub is_modified: bool,
}

impl View for DocumentStatus {
    type V = DocumentStatusView;

    open spec fn view(&self) -> DocumentStatusView {
        DocumentStatusView {
            curr_location: self.curr_location,
            filename: match self.filename {
                Some(name) => Some(name@),
                None => None,
            },
            is_modified: self.is_modified,
        }
    }
}

impl Default for DocumentStatus {
    /// The status of an empty, unnamed, unmodified document.
    fn default() -> (status: DocumentStatus)
        ensures
            status@ == (DocumentStatusView {
                curr_location: Location { x: 0, y: 0 },
                filename: None,
                is_modified: false,
            }),
    {
        DocumentStatus { curr_location: Location::default(), filename: None, is_modified: false }
    }
}

/// What an editor holds.
pub struct EditorState {
    pub should_quit: bool,
    pub view: ViewState,
    pub statusbar: StatusBarView,
    pub messagebar: MessageBarView,
    pub command_bar: Option<CommandBarView>,
    pub title: Seq<char>,
    pub size: Size,
}

/// The editor: the text area, the status bar below it and, in the bottom
/// row, the message bar or the prompt that takes its place.
pub struct Editor {
    should_quit: bool,
    view: view::View,
    statusbar: StatusBar,
    messagebar: MessageBar,
    command_bar: Option<CommandBar>,
    title: String,
    size: Size,
}

/// What one frame puts on the screen.
pub struct Frame {
    /// The title of the terminal window.
    pub title: String,
    /// The rows to paint, in the order in which they are painted.
    pub rows: Vec<ScreenRow>,
    /// Where the caret is shown once the rows are painted.
    pub caret: Position,
}

/// What a frame holds.
pub struct FrameView {
    pub title: Seq<char>,
    pub rows: Seq<ScreenRowView>,
    pub caret: Position,
}

impl View for Frame {
    type V = FrameView;

    open spec fn view(&self) -> FrameView {
        FrameView { title: self.title@, rows: row_views(self.rows@), caret: self.caret }
    }
}

/// What an optional frame holds.
pub open spec fn frame_view(frame: Option<Frame>) -> Option<FrameView> {
    match frame {
        Some(frame) => Some(frame@),
        None => None,
    }
}

/// What an optional command bar holds.
pub open spec fn bar_view(bar: Option<CommandBar>) -> Option<CommandBarView> {
    match bar {
        Some(bar) => Some(bar@),
        None => None,
    }
}

/// The editor after the status bar took note of the document.
pub open spec fn status_updated(state: EditorState) -> EditorState {
    EditorState {
        statusbar: StatusBarView {
            document_status: status_of(state.view),
            redraw: state.statusbar.redraw || status_of(state.view)
                != state.statusbar.document_status,
            ..state.statusbar
        },
        ..state
    }
}

/// The editor after `text` was posted to the message bar.
pub open spec fn notified(state: EditorState, text: Seq<char>) -> EditorState {
    EditorState {
        messagebar: MessageBarView { message: Some(text), redraw: true, ..state.messagebar },
        ..state
    }
}

/// The editor after a prompt was opened in place of the message bar.
pub open spec fn prompt_shown(state: EditorState, prompt: Seq<char>) -> EditorState {
    EditorState {
        command_bar: Some(
            CommandBarView { prompt, input: Seq::empty(), redraw: true, size: state.size },
        ),
        ..state
    }
}

/// The editor after the prompt was closed: the message bar is back and
/// marked for repainting.
pub open spec fn prompt_dismissed(state: EditorState) -> EditorState {
    EditorState {
        command_bar: None,
        messagebar: MessageBarView { redraw: true, ..state.messagebar },
        ..state
    }
}

/// The editor after the screen took the size `size`. The text area takes
/// all rows but the last two, the status bar one row, and the prompt, or
/// else the message bar, the last; each is marked for repainting.
pub open spec fn resized(state: EditorState, size: Size) -> EditorState {
    EditorState {
        size,
        view: ViewState {
            redraw: true,
            ..scrolled(
                ViewState {
                    size: Size { height: size.height.saturating_sub(2), width: size.width },
                    ..state.view
                },
            )
        },
        statusbar: StatusBarView {
            size: Size { height: 1, width: size.width },
            redraw: true,
            ..state.statusbar
        },
        command_bar: match state.command_bar {
            Some(bar) => Some(
                CommandBarView {
                    size: Size { height: 1, width: size.width },
                    redraw: true,
                    ..bar
                },
            ),
            None => None,
        },
        messagebar: if state.command_bar is None {
            MessageBarView {
                size: Size { height: 1, width: size.width },
                redraw: true,
                ..state.messagebar
            }
        } else {
            state.messagebar
        },
        ..state
    }
}

/// The editor after a save was asked for, and what is to be written. With
/// `filename` the document goes to that file. Without, it goes to the file
/// it is named after; a document without a name has nothing to write, and
/// that counts as saved.
pub open spec fn save_started(state: EditorState, filename: Option<Seq<char>>) -> (
    EditorState,
    Option<SaveRequestView>,
) {
    match filename {
        Some(filename) => (
            state,
            Some(SaveRequestView { filename, contents: file_text(state.view.buffer.lines) }),
        ),
        None => match save_of(state.view.buffer) {
            Some(request) => (state, Some(request)),
            None => (notified(state, "File saved successfully"@), None),
        },
    }
}

/// The editor after it was told how the writing of `filename` went. A
/// document that was written carries that name and no longer counts as
/// modified; either way the message bar says how it went.
pub open spec fn save_finished(state: EditorState, filename: Seq<char>, success: bool)
    -> EditorState {
    if success {
        notified(
            EditorState { view: written(state.view, filename), ..state },
            "File saved successfully"@,
        )
    } else {
        notified(state, "Errow while saving file"@)
    }
}

/// The editor after one action, and what is to be written if the action
/// was a save. Saving a document without a name opens the prompt instead.
/// Quitting is refused while the document is modified. Dismissing closes
/// the prompt, if one is open, and says so.
pub open spec fn acted(state: EditorState, action: Action) -> (
    EditorState,
    Option<SaveRequestView>,
) {
    match action {
        Action::Save => if state.view.buffer.filename is None {
            (prompt_shown(state, "Save As:"@), None)
        } else {
            save_started(state, None)
        },
        Action::Quit => if state.view.buffer.is_modified {
            (notified(state, "please save the file before closing"@), None)
        } else {
            (EditorState { should_quit: true, ..state }, None)
        },
        Action::ForceQuit => (EditorState { should_quit: true, ..state }, None),
        Action::Resize(size) => (resized(state, size), None),
        Action::Dismiss => if state.command_bar is Some {
            (notified(prompt_dismissed(state), "Save Aborted"@), None)
        } else {
            (state, None)
        },
    }
}

/// The editor after one command, and what is to be written if the command
/// led to a save. While the prompt is open, edits go to its input and
/// movements are ignored; a line break takes the input as a file name,
/// closes the prompt and saves under that name.
pub open spec fn processed(state: EditorState, command: Command) -> (
    EditorState,
    Option<SaveRequestView>,
) {
    match command {
        Command::Edit(edit) => match state.command_bar {
            Some(bar) => if edit is InsertNewLine {
                save_started(prompt_dismissed(state), Some(text_of(bar.input)))
            } else {
                (
                    EditorState {
                        command_bar: Some(
                            CommandBarView {
                                input: input_edited(bar.input, edit),
                                redraw: true,
                                ..bar
                            },
                        ),
                        ..state
                    },
                    None,
                )
            },
            None => (EditorState { view: view_edited(state.view, edit), ..state }, None),
        },
        Command::Move(direction) => if state.command_bar is None {
            (EditorState { view: view_moved(state.view, direction), ..state }, None)
        } else {
            (state, None)
        },
        Command::Action(action) => acted(state, action),
    }
}

/// Whether `after` spells what `before` spells after one command. An edit
/// changes the text of the prompt's input while the prompt is open, and
/// the text of the document otherwise; a line break in the prompt edits
/// nothing.
pub open spec fn command_spells(before: EditorState, after: EditorState, command: Command) -> bool {
    match command {
        Command::Edit(edit) => match before.command_bar {
            Some(bar) => !(edit is InsertNewLine) ==> (after.command_bar matches Some(edited)
                && input_spells(bar.input, edited.input, edit)),
            None => edit_spells(before.view, after.view, edit),
        },
        _ => true,
    }
}

/// The editor with every component marked for repainting.
pub open spec fn all_marked(state: EditorState) -> EditorState {
    EditorState {
        view: ViewState { redraw: true, ..state.view },
        statusbar: StatusBarView { redraw: true, ..state.statusbar },
        messagebar: MessageBarView { redraw: true, ..state.messagebar },
        command_bar: match state.command_bar {
            Some(bar) => Some(CommandBarView { redraw: true, ..bar }),
            None => None,
        },
        ..state
    }
}

/// The editor after one input event, and what is to be written if the
/// event led to a save. An event that stands for no command changes
/// nothing.
pub open spec fn handled(state: EditorState, event: Event) -> (
    EditorState,
    Option<SaveRequestView>,
) {
    match event_command(event) {
        Ok(command) => processed(state, command),
        Err(_) => (state, None),
    }
}

/// Whether a screen of this size shows anything at all.
pub open spec fn visible(size: Size) -> bool {
    size.height != 0 && size.width != 0
}

/// The rows that the bottom row of the screen needs painted: those of the
/// prompt if one is open, else those of the message bar; none where the
/// component is not marked.
pub open spec fn bottom_rows(state: EditorState) -> Seq<ScreenRowView> {
    let bottom = state.size.height.saturating_sub(1);
    match state.command_bar {
        Some(bar) => if bar.redraw {
            CommandBar::picture(bar, bottom)
        } else {
            Seq::empty()
        },
        None => if state.messagebar.redraw {
            MessageBar::picture(state.messagebar, bottom)
        } else {
            Seq::empty()
        },
    }
}

/// The rows that the status bar needs painted: none on a screen of one
/// row, and none where the bar is not marked.
pub open spec fn status_rows(state: EditorState) -> Seq<ScreenRowView> {
    if state.size.height > 1 && state.statusbar.redraw {
        StatusBar::picture(state.statusbar, state.size.height.saturating_sub(2))
    } else {
        Seq::empty()
    }
}

/// The rows that the text area needs painted: none on a screen of two
/// rows or fewer, and none where the area is not marked.
pub open spec fn view_rows(state: EditorState) -> Seq<ScreenRowView> {
    if state.size.height > 2 && state.view.redraw {
        view_picture(state.view, 0)
    } else {
        Seq::empty()
    }
}

/// Where the caret is shown: in the prompt if one is open, else in the
/// text area.
pub open spec fn frame_caret(state: EditorState) -> Position {
    match state.command_bar {
        Some(bar) => Position {
            row: state.size.height.saturating_sub(1),
            col: least(
                prompt_len(bar.prompt).saturating_add(bar.input.len() as usize),
                bar.size.width,
            ),
        },
        None => {
            let caret = caret_cell(state.view.buffer.lines, state.view.location);
            Position {
                col: caret.col.saturating_sub(state.view.scroll_offset.col),
                row: caret.row.saturating_sub(state.view.scroll_offset.row),
            }
        },
    }
}

/// What the next frame puts on the screen: nothing at all on a screen
/// without rows or columns; else the rows of the bottom row, of the status
/// bar and of the text area, in that order, as far as they need painting.
pub open spec fn next_frame(state: EditorState) -> Option<FrameView> {
    if visible(state.size) {
        Some(
            FrameView {
                title: state.title,
                rows: bottom_rows(state) + status_rows(state) + view_rows(state),
                caret: frame_caret(state),
            },
        )
    } else {
        None
    }
}

/// The editor after a frame was painted: every component that had room on
/// the screen is no longer marked.
pub open spec fn refreshed(state: EditorState) -> EditorState {
    if visible(state.size) {
        EditorState {
            command_bar: match state.command_bar {
                Some(bar) => Some(CommandBarView { redraw: false, ..bar }),
                None => None,
            },
            messagebar: if state.command_bar is None {
                MessageBarView { redraw: false, ..state.messagebar }
            } else {
                state.messagebar
            },
            statusbar: if state.size.height > 1 {
                StatusBarView { redraw: false, ..state.statusbar }
            } else {
                state.statusbar
            },
            view: if state.size.height > 2 {
                ViewState { redraw: false, ..state.view }
            } else {
                state.view
            },
            ..state
        }
    } else {
        state
    }
}

/// The editor for a screen of size `size`, before any file is opened.
pub open spec fn started(size: Size) -> EditorState {
    let fresh = EditorState {
        should_quit: false,
        view: ViewState {
            buffer: crate::buffer::BufferView {
                lines: Seq::empty(),
                filename: None,
                is_modified: false,
            },
            redraw: false,
            size: Size { width: 0, height: 0 },
            location: Location { x: 0, y: 0 },
            scroll_offset: Position { col: 0, row: 0 },
        },
        statusbar: StatusBarView {
            document_status: DocumentStatusView {
                curr_location: Location { x: 0, y: 0 },
                filename: None,
                is_modified: false,
            },
            redraw: false,
            size: Size { width: 0, height: 0 },
        },
        messagebar: MessageBarView {
            message: None,
            redraw: false,
            size: Size { width: 0, height: 0 },
        },
        command_bar: None,
        title: Seq::empty(),
        size: Size { width: 0, height: 0 },
    };
    status_updated(resized(fresh, size))
}

/// The editor after the file `file` was opened: its text area holds the
/// lines of `contents`, or no lines where nothing could be read, and the
/// status bar has taken note.
pub open spec fn opened(state: EditorState, file: Seq<char>, contents: Option<Seq<char>>)
    -> EditorState {
    status_updated(
        EditorState {
            view: settled(ViewState { buffer: loaded(file, contents), ..state.view }),
            ..state
        },
    )
}

impl View for Editor {
    type V = EditorState;

    closed spec fn view(&self) -> EditorState {
        EditorState {
            should_quit: self.should_quit,
            view: self.view@,
            statusbar: self.statusbar@,
            messagebar: self.messagebar@,
            command_bar: bar_view(self.command_bar),
            title: self.title@,
            size: self.size,
        }
    }
}

impl Editor {
    /// A machine number can count the lines of the document of an editor
    /// and the clusters of each.
    pub proof fn lemma_document_fits(&self)
        ensures
            crate::buffer::document_fits(self@.view.buffer.lines),
    {
        self.view.lemma_document_fits();
    }

    /// The editor for a screen of size `size`, before any file is opened.
    pub fn new(size: Size) -> (editor: Editor)
        ensures
            editor@ == started(size),
    {
        let mut editor = Editor {
            should_quit: false,
            view: view::View::default(),
            statusbar: StatusBar::default(),
            messagebar: MessageBar::default(),
            command_bar: None,
            title: String::new(),
            size: Size::default(),
        };
        editor.resize(size);
        editor.update_status();
        editor
    }

    /// Opens the file `file`, given `contents`, the text read from it, or
    /// nothing where the file does not exist or could not be read.
    pub fn load(&mut self, file: &str, contents: Option<&str>)
        ensures
            final(self)@ == opened(old(self)@, file@, text_view(contents)),
            contents matches Some(text) ==> crate::buffer::texts_of(final(self)@.view.buffer.lines)
                == crate::buffer::text_lines(text@),
            crate::buffer::document_fits(final(self)@.view.buffer.lines),
    {
        self.view.load(file, contents);
        self.update_status();
    }

    /// Whether the editor was told to quit.
    pub fn should_quit(&self) -> (quit: bool)
        ensures
            quit == self@.should_quit,
    {
        self.should_quit
    }

    /// Lets the status bar take note of the document.
    pub fn update_status(&mut self)
        ensures
            final(self)@ == status_updated(old(self)@),
    {
        let status = self.view.get_status();
        self.statusbar.update_status(status);
    }

    /// The title of the terminal window.
    fn render_title(&self) -> (title: String)
        ensures
            title@ == self@.title,
    {
        self.title.clone()
    }

    /// Carries out one command. Returns what is to be written if the
    /// command led to a save.
    pub fn process_command(&mut self, command: Command) -> (request: Option<SaveRequest>)
        ensures
            (final(self)@, request_view(request)) == processed(old(self)@, command),
            command_spells(old(self)@, final(self)@, command),
            crate::buffer::document_fits(final(self)@.view.buffer.lines),
    {
        proof {
            self.lemma_document_fits();
        }
        match command {
            Command::Edit(edit) => {
                if self.command_bar.is_some() {
                    if let Edit::InsertNewLine = edit {
                        let filename = match &self.command_bar {
                            Some(command_bar) => command_bar.get_input(),
                            None => String::new(),
                        };
                        self.dismiss_prompt();
                        self.save_file(Some(filename))
                    } else {
                        match &mut self.command_bar {
                            Some(command_bar) => command_bar.handle_edit_command(edit),
                            None => {},
                        }
                        None
                    }
                } else {
                    self.view.handle_edit_command(edit);
                    None
                }
            },
            Command::Move(direction) => {
                if self.command_bar.is_none() {
                    self.view.handle_move_command(direction);
                }
                None
            },
            Command::Action(action) => self.handle_action_command(action),
        }
    }

    /// Carries out one action. Returns what is to be written if the action
    /// was a save.
    fn handle_action_command(&mut self, action: Action) -> (request: Option<SaveRequest>)
        ensures
            (final(self)@, request_view(request)) == acted(old(self)@, action),
    {
        match action {
            Action::Save => self.handle_save(),
            Action::Quit => {
                self.handle_quit();
                None
            },
            Action::ForceQuit => {
                self.handle_force_quit();
                None
            },
            Action::Resize(size) => {
                self.resize(size);
                None
            },
            Action::Dismiss => {
                if self.command_bar.is_some() {
                    self.dismiss_prompt();
                    self.messagebar.update_message("Save Aborted");
                }
                None
            },
        }
    }

    /// Starts a save, under `filename` or else under the name of the
    /// document. Returns what is to be written.
    fn save_file(&mut self, filename: Option<String>) -> (request: Option<SaveRequest>)
        ensures
            (final(self)@, request_view(request)) == save_started(
                old(self)@,
                match filename {
                    Some(filename) => Some(filename@),
                    None => None,
                },
            ),
    {
        let request = match filename {
            Some(filename) => Some(self.view.save_as(filename)),
            None => self.view.save(),
        };
        if request.is_none() {
            self.messagebar.update_message("File saved successfully");
        }
        request
    }

    /// Tells the editor how the writing of `filename` went.
    pub fn save_finished(&mut self, filename: &str, success: bool)
        ensures
            final(self)@ == save_finished(old(self)@, filename@, success),
    {
        if success {
            self.view.saved(filename);
            self.messagebar.update_message("File saved successfully");
        } else {
            self.messagebar.update_message("Errow while saving file");
        }
    }

    fn handle_save(&mut self) -> (request: Option<SaveRequest>)
        ensures
            (final(self)@, request_view(request)) == acted(old(self)@, Action::Save),
    {
        if self.view.is_unnamed() {
            self.show_prompt("Save As:");
            None
        } else {
            self.save_file(None)
        }
    }

    fn handle_force_quit(&mut self)
        ensures
            final(self)@ == (EditorState { should_quit: true, ..old(self)@ }),
    {
        self.should_quit = true;
    }

    fn handle_quit(&mut self)
        ensures
            final(self)@ == acted(old(self)@, Action::Quit).0,
    {
        if self.view.is_modified() {
            self.messagebar.update_message("please save the file before closing");
        } else {
            self.should_quit = true;
        }
    }

    /// Carries out the command that `event` stands for, if any. Returns
    /// what is to be written if the event led to a save.
    pub fn handle_event(&mut self, event: Event) -> (request: Option<SaveRequest>)
        ensures
            (final(self)@, request_view(request)) == handled(old(self)@, event),
            event_command(event) matches Ok(command) ==> command_spells(
                old(self)@,
                final(self)@,
                command,
            ),
            crate::buffer::document_fits(final(self)@.view.buffer.lines),
    {
        proof {
            self.lemma_document_fits();
        }
        match Command::try_from(event) {
            Ok(command) => self.process_command(command),
            Err(_) => None,
        }
    }

    fn show_prompt(&mut self, prompt: &str)
        ensures
            final(self)@ == prompt_shown(old(self)@, prompt@),
    {
        let mut command_bar = CommandBar::default();
        command_bar.resize(self.size);
        command_bar.update_prompt(prompt);
        command_bar.mark_redraw(true);
        self.command_bar = Some(command_bar);
    }

    fn dismiss_prompt(&mut self)
        ensures
            final(self)@ == prompt_dismissed(old(self)@),
    {
        self.command_bar = None;
        self.messagebar.mark_redraw(true);
    }

    /// Marks every component for repainting, so that the next frame paints
    /// the whole screen: for when a frame could not be put on the terminal.
    pub fn mark_redraw(&mut self)
        ensures
            final(self)@ == all_marked(old(self)@),
    {
        self.view.mark_redraw(true);
        self.statusbar.mark_redraw(true);
        self.messagebar.mark_redraw(true);
        match &mut self.command_bar {
            Some(command_bar) => command_bar.mark_redraw(true),
            None => {},
        }
    }

    /// Lays the components out on a screen of size `size`.
    pub fn resize(&mut self, size: Size)
        ensures
            final(self)@ == resized(old(self)@, size),
    {
        self.size = size;
        let Size { width, height } = self.size;
        self.view.resize(Size { height: height.saturating_sub(2), width });
        self.statusbar.resize(Size { height: 1, width });
        match &mut self.command_bar {
            Some(command_bar) => command_bar.resize(Size { height: 1, width }),
            None => self.messagebar.resize(Size { height: 1, width }),
        }
    }

    /// Paints the next frame: every component that has room on the screen
    /// and is marked for repainting paints its rows and is then no longer
    /// marked. A screen without rows or columns gets no frame.
    pub fn refresh_screen(&mut self) -> (frame: Option<Frame>)
        ensures
            frame_view(frame) == next_frame(old(self)@),
            final(self)@ == refreshed(old(self)@),
    {
        if self.size.height == 0 || self.size.width == 0 {
            return None;
        }
        let title = self.render_title();
        let bottom_row = self.size.height.saturating_sub(1);
        let mut rows = match &mut self.command_bar {
            Some(command_bar) => command_bar.render(bottom_row),
            None => self.messagebar.render(bottom_row),
        };
        if self.size.height > 1 {
            let mut status = self.statusbar.render(self.size.height.saturating_sub(2));
            rows.append(&mut status);
        }
        if self.size.height > 2 {
            let mut text = self.view.render(0);
            rows.append(&mut text);
        }
        assert(row_views(rows@) =~= bottom_rows(old(self)@) + status_rows(old(self)@)
            + view_rows(old(self)@));
        let caret = match &self.command_bar {
            Some(command_bar) => Position {
                row: bottom_row,
                col: command_bar.get_caret_location(),
            },
            None => self.view.get_caret_location(),
        };
        Some(Frame { title, rows, caret })
    }
}

} // verus!
