//! The text input box: an editable line of text with a cursor.

use crate::component::Component;
use crate::display_width::{
    cell_count, lemma_total_cells_prefix, lemma_total_cells_push, total_cells,
};
use crate::edit_state::EditState;
use crate::event::{KeyCode, KeyEvent, KeyEventKind, MouseEvent};
use crate::utf8_index::{
    byte_index_of, byte_offset, lemma_byte_offset_is_boundary, lemma_insert_at_offset,
};
use vstd::prelude::*;
use vstd::std_specs::iter::IteratorSpec;
use vstd::string::{StrSliceExecFns, StringExecFns};
use vstd::utf8::encode_utf8_decode_utf8;

verus! {

/// An editable line of text with a cursor.
///
/// The cursor is a character index and always lies within the text or at
/// its end. Every edit works on whole characters, whatever number of bytes
/// they take.
pub struct InputBox {
    /// Current value of the input box.
    text: String,
    /// Position of the cursor, as a character index. Not a byte index.
    cursor_position: usize,
}

impl View for InputBox {
    type V = EditState;

    closed spec fn view(&self) -> EditState {
        EditState { text: self.text@, cursor: self.cursor_position as nat }
    }
}

impl InputBox {
    #[verifier::type_invariant]
    spec fn cursor_in_range(&self) -> bool {
        self.cursor_position <= self.text@.len()
    }

    /// The current text.
    pub fn text(&self) -> (text: &str)
        ensures
            text@ == self@.text,
    {
        self.text.as_str()
    }

    /// The position of the cursor, counted in characters.
    pub fn cursor_position(&self) -> (position: usize)
        ensures
            position == self@.cursor,
            position <= self@.text.len(),
    {
        proof {
            use_type_invariant(self);
        }
        self.cursor_position
    }

    /// Replaces the text and puts the cursor at its end.
    pub fn set_text(&mut self, new_text: &str)
        ensures
            final(self)@ == EditState::with_text(new_text@),
            final(self)@.in_range(),
    {
        self.cursor_position = 0;
        self.text = String::from_str(new_text);
        self.cursor_position = self.get_max_cursor_position();
    }

    /// Clears the text.
    pub fn reset(&mut self)
        ensures
            final(self)@ == EditState::empty(),
            final(self)@.in_range(),
    {
        self.cursor_position = 0;
        self.text = String::new();
    }

    /// Whether the text has no characters.
    pub fn is_empty(&self) -> (empty: bool)
        ensures
            empty == (self@.text.len() == 0),
    {
        self.text.as_str().is_empty()
    }

    /// The largest position the cursor may take: the number of characters of
    /// the text, which its length in bytes may exceed.
    pub fn get_max_cursor_position(&self) -> (count: usize)
        ensures
            count == self@.text.len(),
    {
        self.text.as_str().unicode_len()
    }

    /// The position nearest to `new_cursor_pos` that the cursor may take.
    pub fn clamp_cursor(&self, new_cursor_pos: usize) -> (position: usize)
        ensures
            position == self@.clamp(new_cursor_pos as int),
            position <= self@.text.len() <= usize::MAX,
    {
        let max_cursor_pos = self.get_max_cursor_position();
        if new_cursor_pos > max_cursor_pos {
            max_cursor_pos
        } else {
            new_cursor_pos
        }
    }

    /// Moves the cursor one character to the left. At the start of the text
    /// nothing changes.
    pub fn move_cursor_left(&mut self)
        ensures
            final(self)@ == old(self)@.move_left(),
            final(self)@.in_range(),
            old(self)@.cursor == 0 ==> final(self)@ == old(self)@,
    {
        let cursor_moved_left = self.cursor_position.saturating_sub(1);
        self.cursor_position = self.clamp_cursor(cursor_moved_left);
    }

    /// Moves the cursor one character to the right. At the end of the text
    /// nothing changes.
    pub fn move_cursor_right(&mut self)
        ensures
            final(self)@ == old(self)@.move_right(),
            final(self)@.in_range(),
            old(self)@.cursor == old(self)@.text.len() ==> final(self)@ == old(self)@,
    {
        proof {
            use_type_invariant(&*self);
        }
        let cursor_moved_right = self.cursor_position.saturating_add(1);
        self.cursor_position = self.clamp_cursor(cursor_moved_right);
    }

    /// The byte index of the cursor. The text is stored as UTF-8, so this
    /// differs from the cursor position as soon as a character before the
    /// cursor takes more than one byte.
    pub fn get_cursor_byte_index(&self) -> (index: usize)
        ensures
            index == byte_offset(self@.text, self@.cursor as int),
    {
        byte_index_of(self.text.as_str(), self.cursor_position)
    }

    /// Inserts `new_char` at the cursor and moves the cursor past it.
    pub fn enter_char(&mut self, new_char: char)
        ensures
            final(self)@ == old(self)@.insert(new_char),
            final(self)@.in_range(),
            final(self)@.text.len() == old(self)@.text.len() + 1,
            final(self)@.cursor == old(self)@.cursor + 1,
    {
        let index = self.get_cursor_byte_index();
        proof {
            use_type_invariant(&*self);
            lemma_byte_offset_is_boundary(self.text@, self.cursor_position as int);
            lemma_insert_at_offset(self.text@, self.cursor_position as int, new_char);
        }
        let mut text = self.text.clone();
        text.insert(index, new_char);
        proof {
            encode_utf8_decode_utf8(text@);
            encode_utf8_decode_utf8(self.text@.insert(self.cursor_position as int, new_char));
        }
        self.text = text;
        self.move_cursor_right();
    }

    /// Deletes the character left of the cursor and moves the cursor into
    /// its place. With the cursor at the start of the text nothing changes.
    pub fn delete_char(&mut self)
        ensures
            final(self)@ == old(self)@.delete_left(),
            final(self)@.in_range(),
            old(self)@.cursor == 0 ==> final(self)@ == old(self)@,
            old(self)@.cursor > 0 ==> final(self)@.text.len() == old(self)@.text.len() - 1,
            old(self)@.cursor > 0 ==> final(self)@.cursor == old(self)@.cursor - 1,
    {
        proof {
            use_type_invariant(&*self);
        }
        let is_not_cursor_leftmost = self.cursor_position != 0;
        if is_not_cursor_leftmost {
            // The text is rebuilt from whole characters. Removing at a byte
            // index would need care about character boundaries.
            let current_index = self.cursor_position;
            let from_left_to_current_index = current_index - 1;
            let length = self.get_max_cursor_position();

            // All characters before the one to delete.
            let before_char_to_delete = self.text.as_str().substring_char(
                0,
                from_left_to_current_index,
            );
            // All characters after it.
            let after_char_to_delete = self.text.as_str().substring_char(current_index, length);

            // Put together without the one between them.
            let remaining = String::from_str(before_char_to_delete).concat(after_char_to_delete);
            assert(remaining@ =~= self.text@.remove(from_left_to_current_index as int));
            self.move_cursor_left();
            self.text = remaining;
        }
    }

    /// The terminal column of the cursor, counted from the left edge of the
    /// text: the sum of the display widths of the characters before the
    /// cursor. A wide character such as a Hangul syllable takes two cells, a
    /// combining mark none.
    ///
    /// The column must fit the result. Use
    /// [`terminal_cursor_within`](Self::terminal_cursor_within) to find out
    /// whether it does; [`screen_cursor_position`](Self::screen_cursor_position)
    /// does so by itself.
    pub fn get_terminal_cursor_position(&self) -> (column: u16)
        requires
            self@.column() <= u16::MAX,
        ensures
            column == self@.column(),
    {
        proof {
            use_type_invariant(self);
        }
        let ghost before_cursor = self.text@.take(self.cursor_position as int);
        let mut terminal_cursor_position: u16 = 0;
        let mut seen: usize = 0;
        let mut rest = self.text.as_str().chars();
        while seen < self.cursor_position
            invariant
                seen <= self.cursor_position <= self.text@.len(),
                before_cursor == self.text@.take(self.cursor_position as int),
                total_cells(before_cursor) <= u16::MAX,
                rest.remaining() == self.text@.skip(seen as int),
                terminal_cursor_position == total_cells(self.text@.take(seen as int)),
            decreases self.cursor_position - seen,
        {
            match rest.next() {
                Some(c) => {
                    let width = cell_count(c);
                    proof {
                        assert(self.text@.take(seen + 1) =~= self.text@.take(seen as int).push(c));
                        assert(before_cursor.take(seen + 1) =~= self.text@.take(seen + 1));
                        lemma_total_cells_push(self.text@.take(seen as int), c);
                        lemma_total_cells_prefix(before_cursor, seen + 1);
                    }
                    // Add the width of the character.
                    terminal_cursor_position = terminal_cursor_position + width as u16;
                    seen = seen + 1;
                },
                None => {
                    return terminal_cursor_position;
                },
            }
        }
        terminal_cursor_position
    }

    /// Whether the terminal column of the cursor is at most `limit`.
    pub fn terminal_cursor_within(&self, limit: u16) -> (within: bool)
        ensures
            within == (self@.column() <= limit),
    {
        proof {
            use_type_invariant(self);
        }
        let ghost before_cursor = self.text@.take(self.cursor_position as int);
        let mut column: u16 = 0;
        let mut seen: usize = 0;
        let mut rest = self.text.as_str().chars();
        while seen < self.cursor_position
            invariant
                seen <= self.cursor_position <= self.text@.len(),
                before_cursor == self.text@.take(self.cursor_position as int),
                rest.remaining() == self.text@.skip(seen as int),
                column == total_cells(self.text@.take(seen as int)),
                column <= limit,
            decreases self.cursor_position - seen,
        {
            match rest.next() {
                Some(c) => {
                    let width = cell_count(c);
                    proof {
                        assert(self.text@.take(seen + 1) =~= self.text@.take(seen as int).push(c));
                        assert(before_cursor.take(seen + 1) =~= self.text@.take(seen + 1));
                        lemma_total_cells_push(self.text@.take(seen as int), c);
                        lemma_total_cells_prefix(before_cursor, seen + 1);
                    }
                    if width > (limit - column) as usize {
                        return false;
                    }
                    column = column + width as u16;
                    seen = seen + 1;
                },
                None => {
                    return true;
                },
            }
        }
        true
    }

    /// The terminal cell at which to show the cursor when the box is drawn
    /// with a border whose top left corner is at column `area_x` and row
    /// `area_y`: inside the border, on the line of the text. `None` when that
    /// cell lies beyond the last column or row a terminal can address.
    pub fn screen_cursor_position(&self, area_x: u16, area_y: u16) -> (cell: Option<(u16, u16)>)
        ensures
            match cell {
                Some((x, y)) => (x as int, y as int) == self@.screen_cell(
                    area_x as int,
                    area_y as int,
                ),
                None => self@.screen_cell(area_x as int, area_y as int).0 > u16::MAX
                    || self@.screen_cell(area_x as int, area_y as int).1 > u16::MAX,
            },
    {
        if area_x == u16::MAX || area_y == u16::MAX {
            return None;
        }
        let room = u16::MAX - area_x - 1;
        if !self.terminal_cursor_within(room) {
            return None;
        }
        let column = self.get_terminal_cursor_position();
        Some((area_x + column + 1, area_y + 1))
    }
}

impl<State, Sender> Component<State, Sender> for InputBox {
    /// An empty input box. Neither the state nor the sender is kept.
    fn new(_state: &State, _action_tx: Sender) -> (widget: Self)
        ensures
            widget@ == EditState::empty(),
            widget@.in_range(),
    {
        Self { text: String::new(), cursor_position: 0 }
    }

    /// The same input box: its text is its own and does not follow the
    /// application state.
    fn move_with_state(self, _state: &State) -> Self
        returns
            self,
    {
        self
    }

    fn name(&self) -> &str
        returns
            "Input Box",
    {
        "Input Box"
    }

    /// Edits the text as the key asks: a character is inserted, backspace
    /// deletes to the left, the arrows move the cursor. Only a press counts,
    /// and any other key does nothing.
    fn handle_key_event(&mut self, key: KeyEvent)
        ensures
            final(self)@ == old(self)@.after_key(key),
            final(self)@.in_range(),
            key.kind != KeyEventKind::Press ==> final(self)@ == old(self)@,
    {
        proof {
            use_type_invariant(&*self);
        }
        if key.kind != KeyEventKind::Press {
            return;
        }
        match key.code {
            KeyCode::Char(to_insert) => {
                self.enter_char(to_insert);
            },
            KeyCode::Backspace => {
                self.delete_char();
            },
            KeyCode::Left => {
                self.move_cursor_left();
            },
            KeyCode::Right => {
                self.move_cursor_right();
            },
            _ => {},
        }
    }

    /// Does nothing: an input box does not react to the pointer.
    fn handle_mouse_event(&mut self, _mouse: MouseEvent)
        ensures
            final(self)@ == old(self)@,
    {
    }
}

} // verus!
