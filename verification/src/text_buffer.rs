//! A line of text edited through a cursor that counts characters.
//!
//! The text is stored as UTF-8, in which a character takes one to four bytes.
//! Every operation finds its place in the text by counting characters, so no
//! edit can split a character, and every operation leaves the cursor inside
//! the text or at its end, whatever state it started from.

use crate::strings::{
    byte_offset, byte_offset_of, erase_range, lemma_encode_concat, lemma_encode_injective,
    lemma_offset_is_boundary, lemma_prefix_step, lemma_split_at_offset,
};
use crate::width::{capped, columns_before, text_columns};
use vstd::prelude::*;
use vstd::string::*;
use vstd::utf8::*;

verus! {

/// What a text buffer stands for: the characters of the line, and the number
/// of characters that the cursor has passed.
pub struct Line {
    pub text: Seq<char>,
    pub cursor: int,
}

impl Line {
    /// The cursor lies inside the text or at its end.
    pub open spec fn wf(self) -> bool {
        0 <= self.cursor <= self.text.len()
    }

    /// A proposed cursor position, brought into the text: the position
    /// itself where it lies inside the text or at its end, else the nearer
    /// end.
    pub open spec fn clamp(self, pos: int) -> int {
        if pos < 0 {
            0
        } else if pos > self.text.len() {
            self.text.len() as int
        } else {
            pos
        }
    }

    /// The character position at which an edit takes place.
    pub open spec fn place(self) -> int {
        self.clamp(self.cursor)
    }

    /// The line with the cursor one character further left.
    pub open spec fn move_left(self) -> Line {
        Line { text: self.text, cursor: self.clamp(self.cursor - 1) }
    }

    /// The line with the cursor one character further right.
    pub open spec fn move_right(self) -> Line {
        Line { text: self.text, cursor: self.clamp(self.cursor + 1) }
    }

    /// The line with `c` put in at the cursor, and the cursor behind it.
    pub open spec fn insert(self, c: char) -> Line {
        Line { text: self.text.insert(self.place(), c), cursor: self.place() + 1 }
    }

    /// The line without the character before the cursor, and the cursor in
    /// that character's place. With no character before the cursor the text
    /// stays as it is.
    pub open spec fn delete(self) -> Line {
        if self.place() == 0 {
            Line { text: self.text, cursor: 0 }
        } else {
            Line { text: self.text.remove(self.place() - 1), cursor: self.place() - 1 }
        }
    }

    /// The line with the cursor at its start.
    pub open spec fn reset(self) -> Line {
        Line { text: self.text, cursor: 0 }
    }

    /// The empty line.
    pub open spec fn blank() -> Line {
        Line { text: Seq::empty(), cursor: 0 }
    }

    /// The line after one edit.
    pub open spec fn apply(self, edit: Edit) -> Line {
        match edit {
            Edit::Insert(c) => self.insert(c),
            Edit::Delete => self.delete(),
            Edit::Left => self.move_left(),
            Edit::Right => self.move_right(),
            Edit::Home => self.reset(),
        }
    }

    /// The line after a sequence of edits, the first of them applied first.
    pub open spec fn apply_all(self, edits: Seq<Edit>) -> Line
        decreases edits.len(),
    {
        if edits.len() == 0 {
            self
        } else {
            self.apply_all(edits.drop_last()).apply(edits.last())
        }
    }
}

/// One step of editing a line.
#[derive(Clone, Copy, Debug, PartialEq, Eq, Structural)]
pub enum Edit {
    /// Put a character in at the cursor.
    Insert(char),
    /// Take out the character before the cursor.
    Delete,
    /// Move the cursor one character to the left.
    Left,
    /// Move the cursor one character to the right.
    Right,
    /// Move the cursor to the start of the line.
    Home,
}

/// A line of text and the position of the cursor in it.
///
/// The cursor counts characters, never bytes: `cursor_index == k` means that
/// the cursor stands before the character with index `k`, and
/// `k == content@.len()` that it stands at the end.
pub struct TextBuffer {
    pub content: String,
    pub cursor_index: usize,
}

impl View for TextBuffer {
    type V = Line;

    open spec fn view(&self) -> Line {
        Line { text: self.content@, cursor: self.cursor_index as int }
    }
}

impl TextBuffer {
    /// The cursor lies inside the text or at its end.
    pub open spec fn wf(&self) -> bool {
        self@.wf()
    }

    /// An empty buffer with the cursor at the start.
    pub fn new() -> (buffer: TextBuffer)
        ensures
            buffer@ == Line::blank(),
            buffer.wf(),
    {
        TextBuffer { content: String::new(), cursor_index: 0 }
    }

    /// The number of characters in the text.
    pub fn char_count(&self) -> (count: usize)
        ensures
            count == self@.text.len(),
    {
        self.content.as_str().unicode_len()
    }

    /// Whether the text has no character.
    pub fn is_empty(&self) -> (empty: bool)
        ensures
            empty == (self@.text.len() == 0),
    {
        self.content.as_str().is_empty()
    }

    /// The position nearest to `new_cursor_pos` that lies inside the text or
    /// at its end.
    pub fn clamp_cursor(&self, new_cursor_pos: usize) -> (pos: usize)
        ensures
            pos == self@.clamp(new_cursor_pos as int),
            pos <= self@.text.len() <= usize::MAX,
    {
        let max: usize = self.char_count();
        if new_cursor_pos < max {
            new_cursor_pos
        } else {
            max
        }
    }

    /// Moves the cursor one character to the left; at the start it stays.
    pub fn move_cursor_left(&mut self)
        ensures
            final(self)@ == old(self)@.move_left(),
            final(self).wf(),
    {
        let new_pos: usize = self.cursor_index.saturating_sub(1);
        self.cursor_index = self.clamp_cursor(new_pos);
    }

    /// Moves the cursor one character to the right; at the end it stays.
    pub fn move_cursor_right(&mut self)
        ensures
            final(self)@ == old(self)@.move_right(),
            final(self).wf(),
    {
        let new_pos: usize = self.cursor_index.saturating_add(1);
        self.cursor_index = self.clamp_cursor(new_pos);
    }

    /// The byte position in the text at which the cursor stands: the bytes
    /// of the characters before it, or of the whole text where the cursor
    /// lies beyond its end.
    pub fn byte_index(&self) -> (index: usize)
        ensures
            index == byte_offset(self@.text, self@.cursor),
            index == encode_utf8(self@.text.take(self@.place())).len(),
            is_char_boundary(encode_utf8(self@.text), index as int),
    {
        proof {
            lemma_offset_is_boundary(self@.text, self@.cursor);
            lemma_split_at_offset(self@.text, self@.place());
        }
        byte_offset_of(self.content.as_str(), self.cursor_index)
    }

    /// Puts `new_char` into the text at the cursor and moves the cursor
    /// behind it.
    pub fn enter_char(&mut self, new_char: char)
        ensures
            final(self)@ == old(self)@.insert(new_char),
            final(self).wf(),
    {
        let index: usize = self.byte_index();
        self.content.insert(index, new_char);
        proof {
            let text = old(self)@.text;
            let place = old(self)@.place();
            let one = seq![new_char];
            lemma_split_at_offset(text, place);
            lemma_encode_concat(text.take(place), one);
            lemma_encode_concat(text.take(place) + one, text.skip(place));
            assert(one.drop_first() =~= Seq::<char>::empty());
            assert(encode_utf8(one) =~= encode_scalar(new_char as u32)) by {
                reveal_with_fuel(encode_utf8, 2);
            }
            assert(text.insert(place, new_char) =~= text.take(place) + one + text.skip(place));
            lemma_encode_injective(self.content@, text.insert(place, new_char));
        }
        self.move_cursor_right();
    }

    /// Takes the character before the cursor out of the text and moves the
    /// cursor into its place. With no character before the cursor the text
    /// stays as it is.
    pub fn delete_char(&mut self)
        ensures
            final(self)@ == old(self)@.delete(),
            final(self).wf(),
    {
        let place: usize = self.clamp_cursor(self.cursor_index);
        if place > 0 {
            let index: usize = byte_offset_of(self.content.as_str(), place);
            let from: usize = byte_offset_of(self.content.as_str(), place - 1);
            proof {
                let text = self@.text;
                lemma_offset_is_boundary(text, place as int);
                lemma_offset_is_boundary(text, place - 1);
                lemma_split_at_offset(text, place as int);
                lemma_split_at_offset(text, place - 1);
                lemma_prefix_step(text, place - 1);
            }
            erase_range(&mut self.content, from, index);
            proof {
                let text = old(self)@.text;
                lemma_encode_concat(text.take(place - 1), text.skip(place as int));
                assert(text.remove(place - 1) =~= text.take(place - 1) + text.skip(place as int));
                lemma_encode_injective(self.content@, text.remove(place - 1));
            }
        }
        self.move_cursor_left();
    }

    /// Moves the cursor to the start of the text.
    pub fn reset_cursor(&mut self)
        ensures
            final(self)@ == old(self)@.reset(),
            final(self).wf(),
    {
        self.cursor_index = 0;
    }

    /// Empties the buffer.
    pub fn clear(&mut self)
        ensures
            final(self)@ == Line::blank(),
            final(self).wf(),
    {
        self.content.clear();
        self.reset_cursor();
    }

    /// Hands the text out and empties the buffer. An empty buffer has
    /// nothing to hand out.
    pub fn submit(&mut self) -> (submitted: Option<String>)
        ensures
            old(self)@.text.len() == 0 ==> submitted is None,
            old(self)@.text.len() > 0 ==> submitted is Some && submitted->0@ == old(self)@.text,
            final(self)@ == Line::blank(),
            final(self).wf(),
    {
        let submitted = if self.is_empty() {
            None
        } else {
            Some(self.content.clone())
        };
        self.clear();
        submitted
    }

    /// The terminal column of the cursor, counted from the start of the
    /// text: the columns that the characters before the cursor take, each
    /// measured by itself.
    pub fn cursor_column(&self) -> (column: usize)
        ensures
            column == capped(text_columns(self@.text.take(self@.place()))),
    {
        proof {
            assert(self@.text.take(self@.text.len() as int) =~= self@.text);
        }
        columns_before(self.content.as_str(), self.cursor_index)
    }

    /// Carries out one edit.
    pub fn apply(&mut self, edit: Edit)
        ensures
            final(self)@ == old(self)@.apply(edit),
            final(self).wf(),
    {
        match edit {
            Edit::Insert(c) => self.enter_char(c),
            Edit::Delete => self.delete_char(),
            Edit::Left => self.move_cursor_left(),
            Edit::Right => self.move_cursor_right(),
            Edit::Home => self.reset_cursor(),
        }
    }
}

/// Every edit leaves the cursor inside the text or at its end, whatever the
/// line was before.
pub proof fn law_edit_keeps_cursor_in_text(line: Line, edit: Edit)
    ensures
        line.apply(edit).wf(),
{
}

/// Along any sequence of edits of a well-formed line, the cursor is inside
/// the text or at its end after every step.
pub proof fn law_cursor_stays_in_text(line: Line, edits: Seq<Edit>, steps: int)
    requires
        line.wf(),
        0 <= steps <= edits.len(),
    ensures
        line.apply_all(edits.take(steps)).wf(),
{
    let done = edits.take(steps);
    if done.len() > 0 {
        law_edit_keeps_cursor_in_text(line.apply_all(done.drop_last()), done.last());
    }
}

/// Putting a character in at the cursor and deleting before the cursor right
/// after gives back the line as it was, text and cursor.
pub proof fn law_insert_then_delete(line: Line, c: char)
    requires
        line.wf(),
    ensures
        line.insert(c).delete() == line,
{
    assert(line.text.insert(line.cursor, c).remove(line.cursor) =~= line.text);
}

} // verus!
