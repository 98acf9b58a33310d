//! A flat command set: one enum for movements, edits and actions alike.
//!
//! Unlike the three families of [`crate::command`], movement keys and the two
//! deletion keys are accepted here whatever modifiers are held.

use vstd::prelude::*;
use vstd::std_specs::convert::TryFromSpecImpl;
use crate::command::{Event, KeyCode, KeyEvent, Unrecognized, CONTROL, NONE, SHIFT};
use crate::terminal::Size;

verus! {

/// Where a movement takes the caret.
#[derive(Clone, Copy, Debug, PartialEq, Eq, Structural)]
pub enum Direction {
    Up,
    Down,
    Left,
    Right,
    LeftUp,
    RightUp,
    Home,
    End,
    PageUp,
    PageDown,
}

/// A command of the flat set.
#[derive(Clone, Copy, Debug, PartialEq, Eq, Structural)]
pub enum EditorCommand {
    Move(Direction),
    Resize(Size),
    Insert(char),
    Quit,
    BackSpace,
    Delete,
    Enter,
    SaveFile,
}

/// The flat command that a key stands for. Control with `q` quits and with
/// `s` or `o` saves; movement and deletion keys count with any modifiers; a
/// character typed plain or with shift is inserted; a plain tab inserts a
/// tab character and a plain enter breaks the line.
pub open spec fn key_editor_command(event: KeyEvent) -> Result<EditorCommand, Unrecognized> {
    match event.code {
        KeyCode::Char(c) if event.modifiers == CONTROL && c == 'q' => Ok(EditorCommand::Quit),
        KeyCode::Char(c) if event.modifiers == CONTROL && (c == 's' || c == 'o') => Ok(
            EditorCommand::SaveFile,
        ),
        KeyCode::Up => Ok(EditorCommand::Move(Direction::Up)),
        KeyCode::Down => Ok(EditorCommand::Move(Direction::Down)),
        KeyCode::Right => Ok(EditorCommand::Move(Direction::Right)),
        KeyCode::Left => Ok(EditorCommand::Move(Direction::Left)),
        KeyCode::PageUp => Ok(EditorCommand::Move(Direction::PageUp)),
        KeyCode::PageDown => Ok(EditorCommand::Move(Direction::PageDown)),
        KeyCode::Home => Ok(EditorCommand::Move(Direction::Home)),
        KeyCode::End => Ok(EditorCommand::Move(Direction::End)),
        KeyCode::Backspace => Ok(EditorCommand::BackSpace),
        KeyCode::Delete => Ok(EditorCommand::Delete),
        KeyCode::Char(c) if event.modifiers == NONE || event.modifiers == SHIFT => Ok(
            EditorCommand::Insert(c),
        ),
        KeyCode::Tab if event.modifiers == NONE => Ok(EditorCommand::Insert('\t')),
        KeyCode::Enter if event.modifiers == NONE => Ok(EditorCommand::Enter),
        _ => Err(Unrecognized),
    }
}

/// The flat command that an event stands for. A resize is always the resize
/// command; an event that is neither a resize nor a key is unrecognized.
pub open spec fn event_editor_command(event: Event) -> Result<EditorCommand, Unrecognized> {
    match event {
        Event::Resize(width, height) => Ok(
            EditorCommand::Resize(Size { width: width as usize, height: height as usize }),
        ),
        Event::Key(key_event) => key_editor_command(key_event),
        Event::Other => Err(Unrecognized),
    }
}

/// Looks a key up in the flat command set.
fn key_to_command(event: KeyEvent) -> (ret: Result<EditorCommand, Unrecognized>)
    ensures
        ret == key_editor_command(event),
{
    let plain = event.modifiers == NONE;
    match event.code {
        KeyCode::Char(c) => {
            if event.modifiers == CONTROL && c == 'q' {
                Ok(EditorCommand::Quit)
            } else if event.modifiers == CONTROL && (c == 's' || c == 'o') {
                Ok(EditorCommand::SaveFile)
            } else if plain || event.modifiers == SHIFT {
                Ok(EditorCommand::Insert(c))
            } else {
                Err(Unrecognized)
            }
        },
        KeyCode::Up => Ok(EditorCommand::Move(Direction::Up)),
        KeyCode::Down => Ok(EditorCommand::Move(Direction::Down)),
        KeyCode::Right => Ok(EditorCommand::Move(Direction::Right)),
        KeyCode::Left => Ok(EditorCommand::Move(Direction::Left)),
        KeyCode::PageUp => Ok(EditorCommand::Move(Direction::PageUp)),
        KeyCode::PageDown => Ok(EditorCommand::Move(Direction::PageDown)),
        KeyCode::Home => Ok(EditorCommand::Move(Direction::Home)),
        KeyCode::End => Ok(EditorCommand::Move(Direction::End)),
        KeyCode::Backspace => Ok(EditorCommand::BackSpace),
        KeyCode::Delete => Ok(EditorCommand::Delete),
        KeyCode::Tab => if plain {
            Ok(EditorCommand::Insert('\t'))
        } else {
            Err(Unrecognized)
        },
        KeyCode::Enter => if plain {
            Ok(EditorCommand::Enter)
        } else {
            Err(Unrecognized)
        },
        _ => Err(Unrecognized),
    }
}

impl TryFrom<Event> for EditorCommand {
    type Error = Unrecognized;

    fn try_from(event: Event) -> (ret: Result<EditorCommand, Unrecognized>)
        ensures
            ret == event_editor_command(event),
    {
        match event {
            Event::Resize(width, height) => Ok(
                EditorCommand::Resize(Size { width: width as usize, height: height as usize }),
            ),
            Event::Key(key_event) => key_to_command(key_event),
            Event::Other => Err(Unrecognized),
        }
    }
}

impl TryFromSpecImpl<Event> for EditorCommand {
    open spec fn obeys_try_from_spec() -> bool {
        true
    }

    open spec fn try_from_spec(event: Event) -> Result<EditorCommand, Unrecognized> {
        event_editor_command(event)
    }
}

} // verus!
