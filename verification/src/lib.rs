//! Editing core of a terminal text editor: a grapheme-aware document model,
//! a scrolling viewport and the redraw protocol of the widgets around it.
//!
//! Nothing in this crate touches the terminal or the file system. Input
//! arrives as plain events, output leaves as rows of text to paint and as
//! requests to write a file; the program around the library performs both.

pub mod buffer;
pub mod command;
pub mod commandbar;
pub mod editor;
pub mod editorcommand;
pub mod layout;
pub mod line;
pub mod location;
pub mod messagebar;
pub mod statusbar;
pub mod terminal;
pub mod uicomponent;
pub mod unicode;
pub mod view;
