//! The line in which a player's name is typed, with its cursor.
//!
//! Positions count characters, and the cursor stands between characters:
//! position 0 is in front of the first, position `len` behind the last.

use vstd::prelude::*;
use vstd::string::{StrSliceExecFns, StringExecFns};

verus! {

/// `String::push` appends one character to the end of the string.
pub assume_specification[ String::push ](text: &mut String, ch: char)
    ensures
        final(text)@ == old(text)@.push(ch),
;

/// A line of text and a cursor in it.
#[derive(Debug, PartialEq, Eq)]
pub struct InputLine {
    text: String,
    cursor: usize,
}

/// `text` with `c` put in at position `at`.
pub open spec fn with_char_at(text: Seq<char>, at: int, c: char) -> Seq<char> {
    text.subrange(0, at).push(c) + text.subrange(at, text.len() as int)
}

/// `text` without the character in front of position `at`.
pub open spec fn without_char_before(text: Seq<char>, at: int) -> Seq<char> {
    text.subrange(0, at - 1) + text.subrange(at, text.len() as int)
}

impl InputLine {
    /// The cursor stands in the text or at its end.
    #[verifier::type_invariant]
    pub closed spec fn wf(self) -> bool {
        self.cursor <= self.text@.len()
    }

    /// The text of the line.
    pub closed spec fn text_spec(&self) -> Seq<char> {
        self.text@
    }

    /// The position of the cursor.
    pub closed spec fn cursor_spec(&self) -> usize {
        self.cursor
    }

    /// The cursor stands in the text or at its end.
    pub proof fn lemma_cursor_in_text(self)
        requires
            self.wf(),
        ensures
            self.cursor_spec() <= self.text_spec().len(),
    {
    }

    /// A line that holds `text`, with the cursor at its end.
    pub fn new(text: String) -> (line: InputLine)
        ensures
            line.text_spec() == text@,
            line.cursor_spec() == text@.len(),
            line.wf(),
    {
        let cursor = text.as_str().unicode_len();
        InputLine { text, cursor }
    }

    /// The text of the line.
    pub fn text(&self) -> (text: &String)
        ensures
            text@ == self.text_spec(),
    {
        &self.text
    }

    /// The position of the cursor.
    pub fn cursor(&self) -> (cursor: usize)
        ensures
            cursor == self.cursor_spec(),
            cursor <= self.text_spec().len(),
    {
        proof {
            use_type_invariant(self);
        }
        self.cursor
    }

    /// The position nearest to `position` that lies in the line.
    pub fn clamp_cursor(&self, position: usize) -> (clamped: usize)
        ensures
            clamped == if position <= self.text_spec().len() {
                position as int
            } else {
                self.text_spec().len() as int
            },
            self.text_spec().len() <= usize::MAX,
    {
        let len = self.text.as_str().unicode_len();
        if position > len {
            len
        } else {
            position
        }
    }

    /// Moves the cursor one character to the left, unless it is at the start.
    pub fn move_cursor_left(&mut self)
        ensures
            final(self).text_spec() == old(self).text_spec(),
            final(self).cursor_spec() == if old(self).cursor_spec() == 0 {
                0
            } else {
                old(self).cursor_spec() - 1
            },
            final(self).wf(),
    {
        proof {
            use_type_invariant(&*self);
        }
        let moved = self.cursor.saturating_sub(1);
        self.cursor = self.clamp_cursor(moved);
    }

    /// Moves the cursor one character to the right, unless it is at the end.
    pub fn move_cursor_right(&mut self)
        ensures
            final(self).text_spec() == old(self).text_spec(),
            final(self).cursor_spec() == if old(self).cursor_spec() == old(self).text_spec().len() {
                old(self).cursor_spec() as int
            } else {
                old(self).cursor_spec() + 1
            },
            final(self).wf(),
    {
        proof {
            use_type_invariant(&*self);
        }
        let moved = self.cursor.saturating_add(1);
        self.cursor = self.clamp_cursor(moved);
    }

    /// Puts `c` in at the cursor and moves the cursor behind it.
    pub fn enter_char(&mut self, c: char)
        ensures
            final(self).text_spec() == with_char_at(
                old(self).text_spec(),
                old(self).cursor_spec() as int,
                c,
            ),
            final(self).cursor_spec() == old(self).cursor_spec() + 1,
            final(self).wf(),
    {
        proof {
            use_type_invariant(&*self);
        }
        let len = self.text.as_str().unicode_len();
        let before = self.text.as_str().substring_char(0, self.cursor);
        let after = self.text.as_str().substring_char(self.cursor, len);
        let mut text = String::from_str(before);
        text.push(c);
        text.append(after);
        let grown = text.as_str().unicode_len();
        assert(grown == len + 1);
        let cursor = self.cursor + 1;
        *self = InputLine { text, cursor };
    }

    /// Removes the character in front of the cursor and moves the cursor
    /// into its place. At the start of the line there is nothing to remove.
    pub fn delete_char(&mut self)
        ensures
            old(self).cursor_spec() == 0 ==> final(self).text_spec() == old(self).text_spec()
                && final(self).cursor_spec() == 0,
            old(self).cursor_spec() != 0 ==> final(self).text_spec() == without_char_before(
                old(self).text_spec(),
                old(self).cursor_spec() as int,
            ) && final(self).cursor_spec() == old(self).cursor_spec() - 1,
            final(self).wf(),
    {
        proof {
            use_type_invariant(&*self);
        }
        if self.cursor != 0 {
            let len = self.text.as_str().unicode_len();
            let before = self.text.as_str().substring_char(0, self.cursor - 1);
            let after = self.text.as_str().substring_char(self.cursor, len);
            let mut text = String::from_str(before);
            text.append(after);
            let cursor = self.cursor - 1;
            *self = InputLine { text, cursor };
        }
    }
}

/// Deleting after typing leaves the line as it was.
pub proof fn lemma_delete_undoes_enter(text: Seq<char>, at: int, c: char)
    requires
        0 <= at <= text.len(),
    ensures
        without_char_before(with_char_at(text, at, c), at + 1) == text,
{
    assert(without_char_before(with_char_at(text, at, c), at + 1) =~= text);
}

} // verus!
