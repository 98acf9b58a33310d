//! Raw input events read as editor commands.
//!
//! An event is first read as an edit, then as a caret movement, then as an
//! action of the application. Whatever matches none of the three is
//! reported as [`Unrecognized`], which callers drop without any effect.

use vstd::prelude::*;
use vstd::std_specs::convert::TryFromSpecImpl;
use crate::terminal::Size;

verus! {

/// Modifier bits of a key event with no modifier held.
pub const NONE: u8 = 0;

/// Modifier bit of the shift key.
pub const SHIFT: u8 = 1;

/// Modifier bit of the control key.
pub const CONTROL: u8 = 2;

/// The key of a key event. Keys that no command is bound to are all `Other`.
#[derive(Clone, Copy, Debug, PartialEq, Eq, Structural)]
pub enum KeyCode {
    Backspace,
    Enter,
    Left,
    Right,
    Up,
    Down,
    Home,
    End,
    PageUp,
    PageDown,
    Tab,
    Delete,
    Esc,
    Char(char),
    Other,
}

/// A key together with the modifier bits held while it was pressed.
#[derive(Clone, Copy, Debug, PartialEq, Eq, Structural)]
pub struct KeyEvent {
    pub code: KeyCode,
    pub modifiers: u8,
}

/// A raw input event.
#[derive(Clone, Copy, Debug, PartialEq, Eq, Structural)]
pub enum Event {
    Key(KeyEvent),
    /// The terminal now has this many columns and rows.
    Resize(u16, u16),
    Other,
}

/// The event is bound to no command.
#[derive(Clone, Copy, Debug, PartialEq, Eq, Structural)]
pub struct Unrecognized;

/// A caret movement.
#[derive(Clone, Copy, Debug, PartialEq, Eq, Structural)]
pub enum Move {
    Up,
    Down,
    Left,
    Right,
    /// Left, continuing at the end of the previous line.
    LeftUp,
    /// Right, continuing at the start of the next line.
    RightUp,
    StartOfLine,
    EndOfLine,
    PageUp,
    PageDown,
}

/// A change to the text under the caret.
#[derive(Clone, Copy, Debug, PartialEq, Eq, Structural)]
pub enum Edit {
    Insert(char),
    InsertNewLine,
    Delete,
    DeleteBackward,
}

/// An action of the application as a whole.
#[derive(Clone, Copy, Debug, PartialEq, Eq, Structural)]
pub enum Action {
    Save,
    Quit,
    ForceQuit,
    Dismiss,
    Resize(Size),
}

/// A command of one of the three families.
#[derive(Clone, Copy, Debug, PartialEq, Eq, Structural)]
pub enum Command {
    Move(Move),
    Edit(Edit),
    Action(Action),
}

/// The movement that a key stands for: arrow, home, end and page keys,
/// and only with no modifier held.
pub open spec fn key_move(event: KeyEvent) -> Result<Move, Unrecognized> {
    if event.modifiers != NONE {
        Err(Unrecognized)
    } else {
        match event.code {
            KeyCode::Up => Ok(Move::Up),
            KeyCode::Down => Ok(Move::Down),
            KeyCode::Right => Ok(Move::Right),
            KeyCode::Left => Ok(Move::Left),
            KeyCode::PageUp => Ok(Move::PageUp),
            KeyCode::PageDown => Ok(Move::PageDown),
            KeyCode::Home => Ok(Move::StartOfLine),
            KeyCode::End => Ok(Move::EndOfLine),
            _ => Err(Unrecognized),
        }
    }
}

/// The edit that a key stands for: a character typed plain or with shift is
/// inserted, tab inserts a tab character, and delete, backspace and enter
/// edit only with no modifier held.
pub open spec fn key_edit(event: KeyEvent) -> Result<Edit, Unrecognized> {
    match event.code {
        KeyCode::Char(c) if event.modifiers == NONE || event.modifiers == SHIFT => Ok(
            Edit::Insert(c),
        ),
        KeyCode::Delete if event.modifiers == NONE => Ok(Edit::Delete),
        KeyCode::Backspace if event.modifiers == NONE => Ok(Edit::DeleteBackward),
        KeyCode::Enter if event.modifiers == NONE => Ok(Edit::InsertNewLine),
        KeyCode::Tab if event.modifiers == NONE => Ok(Edit::Insert('\t')),
        _ => Err(Unrecognized),
    }
}

/// The action that a key stands for: control with `q` quits, with `w` quits
/// at once, with `s` or `o` saves; a plain escape dismisses.
pub open spec fn key_action(event: KeyEvent) -> Result<Action, Unrecognized> {
    match event.code {
        KeyCode::Char(c) if event.modifiers == CONTROL && c == 'q' => Ok(Action::Quit),
        KeyCode::Char(c) if event.modifiers == CONTROL && c == 'w' => Ok(Action::ForceQuit),
        KeyCode::Char(c) if event.modifiers == CONTROL && (c == 's' || c == 'o') => Ok(
            Action::Save,
        ),
        KeyCode::Esc if event.modifiers == NONE => Ok(Action::Dismiss),
        _ => Err(Unrecognized),
    }
}

/// The command that a key stands for: the edit if it is one, else the
/// movement, else the action.
pub open spec fn key_command(event: KeyEvent) -> Result<Command, Unrecognized> {
    if let Ok(edit) = key_edit(event) {
        Ok(Command::Edit(edit))
    } else if let Ok(movement) = key_move(event) {
        Ok(Command::Move(movement))
    } else if let Ok(action) = key_action(event) {
        Ok(Command::Action(action))
    } else {
        Err(Unrecognized)
    }
}

/// The command that an event stands for. A resize is always the resize
/// action; an event that is neither a resize nor a key is unrecognized.
pub open spec fn event_command(event: Event) -> Result<Command, Unrecognized> {
    match event {
        Event::Resize(width, height) => Ok(
            Command::Action(
                Action::Resize(Size { width: width as usize, height: height as usize }),
            ),
        ),
        Event::Key(key_event) => key_command(key_event),
        Event::Other => Err(Unrecognized),
    }
}

impl TryFrom<KeyEvent> for Move {
    type Error = Unrecognized;

    /// Arrow, home, end and page keys move the caret, and only with no
    /// modifier held.
    fn try_from(event: KeyEvent) -> (ret: Result<Move, Unrecognized>)
        ensures
            ret == key_move(event),
    {
        if event.modifiers != NONE {
            return Err(Unrecognized);
        }
        match event.code {
            KeyCode::Up => Ok(Move::Up),
            KeyCode::Down => Ok(Move::Down),
            KeyCode::Right => Ok(Move::Right),
            KeyCode::Left => Ok(Move::Left),
            KeyCode::PageUp => Ok(Move::PageUp),
            KeyCode::PageDown => Ok(Move::PageDown),
            KeyCode::Home => Ok(Move::StartOfLine),
            KeyCode::End => Ok(Move::EndOfLine),
            _ => Err(Unrecognized),
        }
    }
}

impl TryFromSpecImpl<KeyEvent> for Move {
    open spec fn obeys_try_from_spec() -> bool {
        true
    }

    open spec fn try_from_spec(event: KeyEvent) -> Result<Move, Unrecognized> {
        key_move(event)
    }
}

impl TryFrom<KeyEvent> for Edit {
    type Error = Unrecognized;

    /// A character typed plain or with shift is inserted; tab inserts a tab
    /// character; delete, backspace and enter edit only with no modifier.
    fn try_from(event: KeyEvent) -> (ret: Result<Edit, Unrecognized>)
        ensures
            ret == key_edit(event),
    {
        match event.code {
            KeyCode::Char(c) => if event.modifiers == NONE || event.modifiers == SHIFT {
                Ok(Edit::Insert(c))
            } else {
                Err(Unrecognized)
            },
            KeyCode::Delete => if event.modifiers == NONE {
                Ok(Edit::Delete)
            } else {
                Err(Unrecognized)
            },
            KeyCode::Backspace => if event.modifiers == NONE {
                Ok(Edit::DeleteBackward)
            } else {
                Err(Unrecognized)
            },
            KeyCode::Enter => if event.modifiers == NONE {
                Ok(Edit::InsertNewLine)
            } else {
                Err(Unrecognized)
            },
            KeyCode::Tab => if event.modifiers == NONE {
                Ok(Edit::Insert('\t'))
            } else {
                Err(Unrecognized)
            },
            _ => Err(Unrecognized),
        }
    }
}

impl TryFromSpecImpl<KeyEvent> for Edit {
    open spec fn obeys_try_from_spec() -> bool {
        true
    }

    open spec fn try_from_spec(event: KeyEvent) -> Result<Edit, Unrecognized> {
        key_edit(event)
    }
}

impl TryFrom<KeyEvent> for Action {
    type Error = Unrecognized;

    /// Control with `q` quits, with `w` quits at once, with `s` or `o`
    /// saves; a plain escape dismisses.
    fn try_from(event: KeyEvent) -> (ret: Result<Action, Unrecognized>)
        ensures
            ret == key_action(event),
    {
        match event.code {
            KeyCode::Char(c) => if event.modifiers != CONTROL {
                Err(Unrecognized)
            } else if c == 'q' {
                Ok(Action::Quit)
            } else if c == 'w' {
                Ok(Action::ForceQuit)
            } else if c == 's' || c == 'o' {
                Ok(Action::Save)
            } else {
                Err(Unrecognized)
            },
            KeyCode::Esc => if event.modifiers == NONE {
                Ok(Action::Dismiss)
            } else {
                Err(Unrecognized)
            },
            _ => Err(Unrecognized),
        }
    }
}

impl TryFromSpecImpl<KeyEvent> for Action {
    open spec fn obeys_try_from_spec() -> bool {
        true
    }

    open spec fn try_from_spec(event: KeyEvent) -> Result<Action, Unrecognized> {
        key_action(event)
    }
}


impl TryFrom<Event> for Command {
    type Error = Unrecognized;

    /// A resize is always the resize action; a key is looked up in the
    /// three families in turn; every other event is unrecognized.
    fn try_from(event: Event) -> (ret: Result<Command, Unrecognized>)
        ensures
            ret == event_command(event),
    {
        match event {
            Event::Resize(width, height) => Ok(
                Command::Action(
                    Action::Resize(Size { width: width as usize, height: height as usize }),
                ),
            ),
            Event::Key(key_event) => {
                if let Ok(edit) = Edit::try_from(key_event) {
                    Ok(Command::Edit(edit))
                } else if let Ok(movement) = Move::try_from(key_event) {
                    Ok(Command::Move(movement))
                } else if let Ok(action) = Action::try_from(key_event) {
                    Ok(Command::Action(action))
                } else {
                    Err(Unrecognized)
                }
            },
            Event::Other => Err(Unrecognized),
        }
    }
}

impl TryFromSpecImpl<Event> for Command {
    open spec fn obeys_try_from_spec() -> bool {
        true
    }

    open spec fn try_from_spec(event: Event) -> Result<Command, Unrecognized> {
        event_command(event)
    }
}

} // verus!
