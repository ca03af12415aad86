use vstd::prelude::*;

use crate::text::{chars_of, string_of};

verus! {

/// An editing step on a text field.
#[derive(Debug, Clone, Copy, PartialEq, Eq, Structural)]
pub enum TextEdit {
    Insert(char),
    DeletePrev,
    DeleteNext,
    GotoPrev,
    GotoNext,
    GotoStart,
    GotoEnd,
}

/// The field after an editing step.
pub open spec fn edited(v: InputView, e: TextEdit) -> InputView {
    match e {
        TextEdit::Insert(c) => InputView { text: v.text.insert(v.cursor as int, c), cursor: v.cursor + 1 },
        TextEdit::DeletePrev => if v.cursor > 0 {
            InputView { text: v.text.remove(v.cursor - 1), cursor: (v.cursor - 1) as nat }
        } else {
            v
        },
        TextEdit::DeleteNext => if v.cursor < v.text.len() {
            InputView { text: v.text.remove(v.cursor as int), cursor: v.cursor }
        } else {
            v
        },
        TextEdit::GotoPrev => InputView {
            cursor: if v.cursor > 0 { (v.cursor - 1) as nat } else { 0 },
            ..v
        },
        TextEdit::GotoNext => InputView {
            cursor: if v.cursor < v.text.len() { v.cursor + 1 } else { v.cursor },
            ..v
        },
        TextEdit::GotoStart => InputView { cursor: 0, ..v },
        TextEdit::GotoEnd => InputView { cursor: v.text.len(), ..v },
    }
}

/// A one-line text field: its characters and a cursor between them.
pub struct InputState {
    chars: Vec<char>,
    cursor: usize,
}

/// Contents and cursor position of a text field.
pub struct InputView {
    pub text: Seq<char>,
    pub cursor: nat,
}

impl View for InputState {
    type V = InputView;

    closed spec fn view(&self) -> InputView {
        InputView { text: self.chars@, cursor: self.cursor as nat }
    }
}

impl InputState {
    /// The cursor never leaves the text.
    pub closed spec fn wf(&self) -> bool {
        self.cursor <= self.chars.len()
    }

    /// A field holding `text`, with the cursor at its end.
    pub fn new(text: &str) -> (r: InputState)
        ensures
            r.wf(),
            r@.text == text@,
            r@.cursor == text@.len(),
    {
        let chars = chars_of(text);
        let cursor = chars.len();
        InputState { chars, cursor }
    }

    pub fn value(&self) -> (r: String)
        ensures
            r@ == self@.text,
    {
        string_of(&self.chars)
    }

    pub fn cursor(&self) -> (r: usize)
        ensures
            r == self@.cursor,
    {
        self.cursor
    }

    /// Types a character at the cursor and moves past it.
    pub fn insert(&mut self, c: char)
        requires
            old(self).wf(),
        ensures
            final(self).wf(),
            final(self)@.text == old(self)@.text.insert(old(self)@.cursor as int, c),
            final(self)@.cursor == old(self)@.cursor + 1,
    {
        self.chars.insert(self.cursor, c);
        let len = self.chars.len();
        assert(self.cursor < len);
        self.cursor = self.cursor + 1;
    }

    /// Removes the character before the cursor, if any.
    pub fn delete_prev(&mut self)
        requires
            old(self).wf(),
        ensures
            final(self).wf(),
            old(self)@.cursor == 0 ==> final(self)@ == old(self)@,
            old(self)@.cursor > 0 ==> final(self)@.text == old(self)@.text.remove(
                old(self)@.cursor - 1,
            ) && final(self)@.cursor == old(self)@.cursor - 1,
    {
        if self.cursor > 0 {
            self.chars.remove(self.cursor - 1);
            self.cursor = self.cursor - 1;
        }
    }

    /// Removes the character after the cursor, if any.
    pub fn delete_next(&mut self)
        requires
            old(self).wf(),
        ensures
            final(self).wf(),
            old(self)@.cursor == old(self)@.text.len() ==> final(self)@ == old(self)@,
            old(self)@.cursor < old(self)@.text.len() ==> final(self)@.text == old(
                self,
            )@.text.remove(old(self)@.cursor as int) && final(self)@.cursor == old(self)@.cursor,
    {
        if self.cursor < self.chars.len() {
            self.chars.remove(self.cursor);
        }
    }

    pub fn goto_prev(&mut self)
        requires
            old(self).wf(),
        ensures
            final(self).wf(),
            final(self)@.text == old(self)@.text,
            final(self)@.cursor == if old(self)@.cursor > 0 {
                (old(self)@.cursor - 1) as nat
            } else {
                0
            },
    {
        if self.cursor > 0 {
            self.cursor = self.cursor - 1;
        }
    }

    pub fn goto_next(&mut self)
        requires
            old(self).wf(),
        ensures
            final(self).wf(),
            final(self)@.text == old(self)@.text,
            final(self)@.cursor == if old(self)@.cursor < old(self)@.text.len() {
                old(self)@.cursor + 1
            } else {
                old(self)@.cursor
            },
    {
        if self.cursor < self.chars.len() {
            self.cursor = self.cursor + 1;
        }
    }

    pub fn goto_start(&mut self)
        requires
            old(self).wf(),
        ensures
            final(self).wf(),
            final(self)@.text == old(self)@.text,
            final(self)@.cursor == 0,
    {
        self.cursor = 0;
    }

    /// Applies one editing step.
    pub fn apply(&mut self, e: TextEdit)
        requires
            old(self).wf(),
        ensures
            final(self).wf(),
            final(self)@ == edited(old(self)@, e),
    {
        match e {
            TextEdit::Insert(c) => self.insert(c),
            TextEdit::DeletePrev => self.delete_prev(),
            TextEdit::DeleteNext => self.delete_next(),
            TextEdit::GotoPrev => self.goto_prev(),
            TextEdit::GotoNext => self.goto_next(),
            TextEdit::GotoStart => self.goto_start(),
            TextEdit::GotoEnd => self.goto_end(),
        }
    }

    pub fn goto_end(&mut self)
        requires
            old(self).wf(),
        ensures
            final(self).wf(),
            final(self)@.text == old(self)@.text,
            final(self)@.cursor == old(self)@.text.len(),
    {
        self.cursor = self.chars.len();
    }
}

} // verus!
