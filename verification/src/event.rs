//! Input events as a widget receives them.

use crate::edit_state::Edit;
use vstd::prelude::*;

verus! {

/// The key that an event is about.
#[derive(Clone, Copy, Debug, PartialEq, Eq, Structural)]
pub enum KeyCode {
    /// A key that produces a character.
    Char(char),
    /// The backspace key.
    Backspace,
    /// The left arrow key.
    Left,
    /// The right arrow key.
    Right,
    /// Any other key.
    Other,
}

/// What happened to the key.
#[derive(Clone, Copy, Debug, PartialEq, Eq, Structural)]
pub enum KeyEventKind {
    /// The key went down.
    Press,
    /// The key is held down and repeats.
    Repeat,
    /// The key came up.
    Release,
}

/// One keyboard event.
#[derive(Clone, Copy, Debug, PartialEq, Eq, Structural)]
pub struct KeyEvent {
    /// The key.
    pub code: KeyCode,
    /// What happened to it.
    pub kind: KeyEventKind,
}

/// One pointer event: the terminal cell the pointer was at.
#[derive(Clone, Copy, Debug, PartialEq, Eq, Structural)]
pub struct MouseEvent {
    /// The column of the cell, counted from the left edge of the terminal.
    pub column: u16,
    /// The row of the cell, counted from the top edge of the terminal.
    pub row: u16,
}

impl KeyEvent {
    /// The editing operation that a text input performs on this event, if
    /// any. Only a press edits; a repeat or a release does nothing, and of
    /// the keys only characters, backspace and the two arrows are bound.
    pub open spec fn edit(self) -> Option<Edit> {
        match self.kind {
            KeyEventKind::Press => match self.code {
                KeyCode::Char(c) => Some(Edit::Insert(c)),
                KeyCode::Backspace => Some(Edit::DeleteLeft),
                KeyCode::Left => Some(Edit::MoveLeft),
                KeyCode::Right => Some(Edit::MoveRight),
                KeyCode::Other => None,
            },
            _ => None,
        }
    }
}

} // verus!
