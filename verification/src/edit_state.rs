//! The mathematical model of an input box: a sequence of characters and a
//! cursor that sits before one of them, or after the last.

use crate::display_width::total_cells;
use crate::event::KeyEvent;
use vstd::prelude::*;

verus! {

/// The value of an input box.
pub struct EditState {
    /// The characters of the text, in order.
    pub text: Seq<char>,
    /// The index of the character before which the cursor sits, counted in
    /// characters. Equal to the length of the text when the cursor is at the
    /// end.
    pub cursor: nat,
}

/// One editing operation on an input box.
pub enum Edit {
    /// Replace the text and put the cursor at its end.
    SetText(Seq<char>),
    /// Clear the text.
    Reset,
    /// Insert a character at the cursor.
    Insert(char),
    /// Delete the character left of the cursor.
    DeleteLeft,
    /// Move the cursor one character to the left.
    MoveLeft,
    /// Move the cursor one character to the right.
    MoveRight,
}

impl EditState {
    /// The cursor lies within the text or at its end.
    pub open spec fn in_range(self) -> bool {
        self.cursor <= self.text.len()
    }

    /// The empty text with the cursor at position zero.
    pub open spec fn empty() -> EditState {
        EditState { text: Seq::empty(), cursor: 0 }
    }

    /// The given text with the cursor at its end.
    pub open spec fn with_text(text: Seq<char>) -> EditState {
        EditState { text, cursor: text.len() }
    }

    /// The position nearest to `pos` that the cursor may take.
    pub open spec fn clamp(self, pos: int) -> nat {
        if pos < 0 {
            0
        } else if pos > self.text.len() {
            self.text.len()
        } else {
            pos as nat
        }
    }

    /// The cursor moved one character to the left, unless it is at the start.
    pub open spec fn move_left(self) -> EditState {
        EditState { cursor: self.clamp(self.cursor as int - 1), ..self }
    }

    /// The cursor moved one character to the right, unless it is at the end.
    pub open spec fn move_right(self) -> EditState {
        EditState { cursor: self.clamp(self.cursor as int + 1), ..self }
    }

    /// `c` inserted before the character the cursor sits at, and the cursor
    /// moved past it.
    pub open spec fn insert(self, c: char) -> EditState
        recommends
            self.in_range(),
    {
        EditState { text: self.text.insert(self.cursor as int, c), cursor: self.cursor + 1 }
    }

    /// The character left of the cursor removed and the cursor moved into its
    /// place. Nothing changes when the cursor is at the start.
    pub open spec fn delete_left(self) -> EditState
        recommends
            self.in_range(),
    {
        if self.cursor == 0 {
            self
        } else {
            EditState {
                text: self.text.remove(self.cursor - 1),
                cursor: (self.cursor - 1) as nat,
            }
        }
    }

    /// The state after one editing operation.
    pub open spec fn apply(self, edit: Edit) -> EditState
        recommends
            self.in_range(),
    {
        match edit {
            Edit::SetText(text) => EditState::with_text(text),
            Edit::Reset => EditState::empty(),
            Edit::Insert(c) => self.insert(c),
            Edit::DeleteLeft => self.delete_left(),
            Edit::MoveLeft => self.move_left(),
            Edit::MoveRight => self.move_right(),
        }
    }

    /// The state after a sequence of editing operations, applied in order.
    pub open spec fn apply_all(self, edits: Seq<Edit>) -> EditState
        recommends
            self.in_range(),
        decreases edits.len(),
    {
        if edits.len() == 0 {
            self
        } else {
            self.apply_all(edits.drop_last()).apply(edits.last())
        }
    }

    /// The state after a keyboard event: the event's editing operation
    /// applied, or the state as it was where the event has none.
    pub open spec fn after_key(self, key: KeyEvent) -> EditState
        recommends
            self.in_range(),
    {
        match key.edit() {
            Some(edit) => self.apply(edit),
            None => self,
        }
    }

    /// The terminal column of the cursor, counted from the left edge of the
    /// text: the cells occupied by the characters before the cursor.
    pub open spec fn column(self) -> nat
        recommends
            self.in_range(),
    {
        total_cells(self.text.take(self.cursor as int))
    }

    /// The terminal cell of the cursor for a bordered box whose top left
    /// corner is at column `left` and row `top`: one row below the top
    /// border, and right of the left border by the cursor's column.
    pub open spec fn screen_cell(self, left: int, top: int) -> (int, int)
        recommends
            self.in_range(),
    {
        (left + self.column() + 1, top + 1)
    }

    /// Every editing operation keeps the cursor within the text.
    pub proof fn lemma_apply_in_range(self, edit: Edit)
        requires
            self.in_range(),
        ensures
            self.apply(edit).in_range(),
    {
    }

    /// However many editing operations are applied, and in whatever order,
    /// the cursor stays within the text.
    pub proof fn lemma_apply_all_in_range(self, edits: Seq<Edit>)
        requires
            self.in_range(),
        ensures
            self.apply_all(edits).in_range(),
        decreases edits.len(),
    {
        if edits.len() > 0 {
            self.lemma_apply_all_in_range(edits.drop_last());
            self.apply_all(edits.drop_last()).lemma_apply_in_range(edits.last());
        }
    }

    /// Inserting a character makes the text one character longer and moves
    /// the cursor one character on; the characters around the new one keep
    /// their order.
    pub proof fn lemma_insert(self, c: char)
        requires
            self.in_range(),
        ensures
            self.insert(c).text.len() == self.text.len() + 1,
            self.insert(c).cursor == self.cursor + 1,
            self.insert(c).text[self.cursor as int] == c,
            self.insert(c).text.take(self.cursor as int) == self.text.take(self.cursor as int),
            self.insert(c).text.skip(self.cursor as int + 1) == self.text.skip(self.cursor as int),
    {
        let after = self.insert(c).text;
        assert(after.take(self.cursor as int) =~= self.text.take(self.cursor as int));
        assert(after.skip(self.cursor as int + 1) =~= self.text.skip(self.cursor as int));
    }

    /// Deleting with the cursor at the start changes nothing.
    pub proof fn lemma_delete_at_start(self)
        requires
            self.cursor == 0,
        ensures
            self.delete_left() == self,
    {
    }

    /// Deleting with the cursor past the start makes the text one character
    /// shorter and moves the cursor one character back; the characters on
    /// either side of the deleted one are kept.
    pub proof fn lemma_delete_past_start(self)
        requires
            self.in_range(),
            self.cursor > 0,
        ensures
            self.delete_left().text.len() == self.text.len() - 1,
            self.delete_left().cursor == self.cursor - 1,
            self.delete_left().text.take(self.cursor - 1) == self.text.take(self.cursor - 1),
            self.delete_left().text.skip(self.cursor - 1) == self.text.skip(self.cursor as int),
    {
        let after = self.delete_left().text;
        assert(after.take(self.cursor - 1) =~= self.text.take(self.cursor - 1));
        assert(after.skip(self.cursor - 1) =~= self.text.skip(self.cursor as int));
    }

    /// Deleting undoes an insertion.
    pub proof fn lemma_insert_then_delete(self, c: char)
        requires
            self.in_range(),
        ensures
            self.insert(c).delete_left() == self,
    {
        assert(self.insert(c).delete_left().text =~= self.text);
    }

    /// Moving left at the start and moving right at the end change nothing.
    pub proof fn lemma_move_at_boundary(self)
        requires
            self.in_range(),
        ensures
            self.cursor == 0 ==> self.move_left() == self,
            self.cursor == self.text.len() ==> self.move_right() == self,
    {
    }

    /// Away from the boundaries a move changes the cursor by exactly one and
    /// leaves the text alone.
    pub proof fn lemma_move_inside(self)
        requires
            self.in_range(),
        ensures
            self.move_left().text == self.text,
            self.move_right().text == self.text,
            self.cursor > 0 ==> self.move_left().cursor == self.cursor - 1,
            self.cursor < self.text.len() ==> self.move_right().cursor == self.cursor + 1,
    {
    }

    /// Clearing after any replacement of the text gives the empty state.
    pub proof fn lemma_set_text_then_reset(self, text: Seq<char>)
        ensures
            self.apply(Edit::SetText(text)).apply(Edit::Reset) == EditState::empty(),
            self.apply(Edit::SetText(text)).text == text,
            self.apply(Edit::SetText(text)).cursor == text.len(),
    {
    }
}

} // verus!
