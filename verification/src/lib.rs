//! A single-line text-input editing engine for terminal widgets.
//!
//! The engine keeps three coordinate systems apart: the character index the
//! cursor lives in, the byte offset an edit is applied at, and the terminal
//! column the cursor is drawn in.

pub mod component;
pub mod display_width;
pub mod edit_state;
pub mod event;
pub mod input_box;
pub mod utf8_index;

pub use crate::component::Component;
pub use crate::edit_state::{Edit, EditState};
pub use crate::event::{KeyCode, KeyEvent, KeyEventKind, MouseEvent};
pub use crate::input_box::InputBox;
