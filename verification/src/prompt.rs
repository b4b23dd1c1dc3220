//! The one-line editor of a prompt: a text and a cursor between its characters.

use vstd::prelude::*;

verus! {

/// The mathematical reading of a [`PromptInput`]: the characters typed so far, and how many of them
/// stand before the cursor.
#[verifier::ext_equal]
pub struct Line {
    pub text: Seq<char>,
    pub cursor: int,
}

impl Line {
    /// The cursor stands within the text.
    pub open spec fn wf(self) -> bool {
        0 <= self.cursor <= self.text.len()
    }

    /// `text`, with the cursor behind its last character.
    pub open spec fn holding(text: Seq<char>) -> Line {
        Line { text, cursor: text.len() as int }
    }

    /// The line with nothing typed.
    pub open spec fn empty() -> Line {
        Line::holding(Seq::empty())
    }

    /// `c` stands where the cursor was, and the cursor behind it.
    pub open spec fn typed(self, c: char) -> Line {
        Line { text: self.text.insert(self.cursor, c), cursor: self.cursor + 1 }
    }

    /// The character before the cursor is gone, if there was one.
    pub open spec fn erased(self) -> Line {
        if self.cursor > 0 {
            Line { text: self.text.remove(self.cursor - 1), cursor: self.cursor - 1 }
        } else {
            self
        }
    }

    /// The cursor one character to the left, stopping at the start.
    pub open spec fn left(self) -> Line {
        Line { cursor: if self.cursor > 0 { self.cursor - 1 } else { self.cursor }, ..self }
    }

    /// The cursor one character to the right, stopping at the end.
    pub open spec fn right(self) -> Line {
        Line {
            cursor: if self.cursor < self.text.len() { self.cursor + 1 } else { self.cursor },
            ..self
        }
    }

    /// The cursor at the start.
    pub open spec fn home(self) -> Line {
        Line { cursor: 0, ..self }
    }

    /// The cursor at the end.
    pub open spec fn end(self) -> Line {
        Line { cursor: self.text.len() as int, ..self }
    }
}

/// A line being edited. The cursor counts characters, not bytes.
#[derive(Debug)]
pub struct PromptInput {
    text: String,
    cursor: usize,
}

impl View for PromptInput {
    type V = Line;

    closed spec fn view(&self) -> Line {
        Line { text: self.text@, cursor: self.cursor as int }
    }
}

impl PromptInput {
    /// The cursor stands within the text.
    pub open spec fn wf(&self) -> bool {
        self@.wf()
    }

    /// An empty line.
    pub fn new() -> (input: PromptInput)
        ensures
            input.wf(),
            input@ == Line::empty(),
    {
        PromptInput { text: String::new(), cursor: 0 }
    }

    /// A line that holds `text`, with the cursor at its end.
    pub fn with_text(text: String) -> (input: PromptInput)
        ensures
            input.wf(),
            input@ == Line::holding(text@),
    {
        let cursor: usize = text.as_str().unicode_len();
        PromptInput { text, cursor }
    }

    /// What the line holds.
    pub fn query(&self) -> (text: &str)
        ensures
            text@ == self@.text,
    {
        self.text.as_str()
    }

    /// How many characters stand before the cursor.
    pub fn cursor(&self) -> (cursor: usize)
        ensures
            cursor == self@.cursor,
    {
        self.cursor
    }

    /// Type `c` at the cursor.
    pub fn push(&mut self, c: char)
        requires
            old(self).wf(),
        ensures
            final(self).wf(),
            final(self)@ == old(self)@.typed(c),
    {
        let len: usize = self.text.as_str().unicode_len();
        let mut text = self.text.as_str().substring_char(0, self.cursor).to_string();
        text.push(c);
        let cursor: usize = text.as_str().unicode_len();
        text.append(self.text.as_str().substring_char(self.cursor, len));
        self.text = text;
        self.cursor = cursor;
    }

    /// Delete the character before the cursor; at the start of the line there is none.
    pub fn backspace(&mut self)
        requires
            old(self).wf(),
        ensures
            final(self).wf(),
            final(self)@ == old(self)@.erased(),
    {
        if self.cursor > 0 {
            let len: usize = self.text.as_str().unicode_len();
            let mut text = self.text.as_str().substring_char(0, self.cursor - 1).to_string();
            text.append(self.text.as_str().substring_char(self.cursor, len));
            self.text = text;
            self.cursor = self.cursor - 1;
        }
    }

    /// Move the cursor one character to the left, stopping at the start.
    pub fn move_left(&mut self)
        requires
            old(self).wf(),
        ensures
            final(self).wf(),
            final(self)@ == old(self)@.left(),
    {
        if self.cursor > 0 {
            self.cursor = self.cursor - 1;
        }
    }

    /// Move the cursor one character to the right, stopping at the end.
    pub fn move_right(&mut self)
        requires
            old(self).wf(),
        ensures
            final(self).wf(),
            final(self)@ == old(self)@.right(),
    {
        let len: usize = self.text.as_str().unicode_len();
        if self.cursor < len {
            self.cursor = self.cursor + 1;
        }
    }

    /// Move the cursor to the start of the line.
    pub fn move_home(&mut self)
        requires
            old(self).wf(),
        ensures
            final(self).wf(),
            final(self)@ == old(self)@.home(),
    {
        self.cursor = 0;
    }

    /// Move the cursor to the end of the line.
    pub fn move_end(&mut self)
        requires
            old(self).wf(),
        ensures
            final(self).wf(),
            final(self)@ == old(self)@.end(),
    {
        self.cursor = self.text.as_str().unicode_len();
    }
}

} // verus!
