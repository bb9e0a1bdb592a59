//! The editable input line: its characters and a cursor among them.
//!
//! The cursor is an offset counted in characters. It may rest on any
//! character or just past the last one. The movement keys cycle over the
//! characters: they wrap at either end instead of stopping there.

use vstd::prelude::*;
use vstd::string::*;

verus! {

/// What a text buffer holds: the characters in order and the cursor's offset
/// among them.
pub struct TextBufferView {
    pub content: Seq<char>,
    pub cursor: int,
}

impl TextBufferView {
    /// The cursor lies between the first character and the position just
    /// past the last one.
    pub open spec fn wf(self) -> bool {
        0 <= self.cursor <= self.content.len()
    }

    /// The buffer of a fresh session: no text, cursor at the start.
    pub open spec fn empty() -> TextBufferView {
        TextBufferView { content: Seq::empty(), cursor: 0 }
    }

    /// `c` goes in at the cursor; the cursor then advances by one, and
    /// returns to the start if that would carry it past the end of the new
    /// text.
    pub open spec fn insert(self, c: char) -> TextBufferView {
        let content = self.content.insert(self.cursor, c);
        let next = self.cursor + 1;
        TextBufferView { content, cursor: if next > content.len() { 0 } else { next } }
    }

    /// The character under the cursor leaves; with the cursor past the end
    /// nothing changes.
    pub open spec fn remove_at_cursor(self) -> TextBufferView {
        if self.cursor < self.content.len() {
            TextBufferView { content: self.content.remove(self.cursor), cursor: self.cursor }
        } else {
            self
        }
    }

    /// The character before the cursor leaves and the cursor steps back onto
    /// its place; with the cursor at the start nothing changes.
    pub open spec fn backspace(self) -> TextBufferView {
        if self.cursor == 0 {
            self
        } else {
            TextBufferView {
                content: self.content.remove(self.cursor - 1),
                cursor: self.cursor - 1,
            }
        }
    }

    /// One step to the left; from the start the cursor jumps onto the last
    /// character, and stays where it is when there is at most one.
    pub open spec fn move_left(self) -> TextBufferView {
        let cursor = if self.cursor != 0 {
            self.cursor - 1
        } else if self.content.len() > 1 {
            self.content.len() - 1
        } else {
            0
        };
        TextBufferView { content: self.content, cursor }
    }

    /// One step to the right; from the last character, or from behind it,
    /// the cursor jumps to the start.
    pub open spec fn move_right(self) -> TextBufferView {
        let cursor = if self.cursor + 1 < self.content.len() {
            self.cursor + 1
        } else {
            0
        };
        TextBufferView { content: self.content, cursor }
    }

    /// The text is replaced; a cursor that would now lie past the end is
    /// pulled back to the end.
    pub open spec fn set(self, text: Seq<char>) -> TextBufferView {
        TextBufferView {
            content: text,
            cursor: if self.cursor > text.len() { text.len() as int } else { self.cursor },
        }
    }

    /// `text` goes in at the cursor in one piece, and the cursor ends just
    /// behind it.
    pub open spec fn paste(self, text: Seq<char>) -> TextBufferView {
        TextBufferView {
            content: self.content.subrange(0, self.cursor) + text + self.content.subrange(
                self.cursor,
                self.content.len() as int,
            ),
            cursor: self.cursor + text.len(),
        }
    }

    /// The characters of `text`, inserted one after the other, each by
    /// [`TextBufferView::insert`].
    pub open spec fn insert_all(self, text: Seq<char>) -> TextBufferView
        decreases text.len(),
    {
        if text.len() == 0 {
            self
        } else {
            self.insert_all(text.drop_last()).insert(text.last())
        }
    }

    /// Every operation keeps the cursor in range.
    pub proof fn lemma_operations_keep_wf(self, c: char, text: Seq<char>)
        requires
            self.wf(),
        ensures
            self.insert(c).wf(),
            self.remove_at_cursor().wf(),
            self.backspace().wf(),
            self.move_left().wf(),
            self.move_right().wf(),
            self.set(text).wf(),
            self.paste(text).wf(),
            TextBufferView::empty().wf(),
    {
    }

    /// An insertion never needs the wrap: on a buffer whose cursor is in
    /// range the new character lands at the cursor, the cursor ends just
    /// behind it, and the text is one character longer.
    pub proof fn lemma_insert_advances(self, c: char)
        requires
            self.wf(),
        ensures
            self.insert(c).cursor == self.cursor + 1,
            self.insert(c).content.len() == self.content.len() + 1,
            self.insert(c).content[self.cursor] == c,
            self.insert(c) == self.paste(seq![c]),
    {
        assert(self.insert(c).content =~= self.paste(seq![c]).content);
    }

    /// The movement keys wrap: with two or more characters, a step left from
    /// the start lands on the last character, and a step right from the last
    /// character lands on the start.
    pub proof fn lemma_moves_wrap(self)
        requires
            self.wf(),
            self.content.len() >= 2,
        ensures
            self.cursor == 0 ==> self.move_left().cursor == self.content.len() - 1,
            self.cursor == self.content.len() - 1 ==> self.move_right().cursor == 0,
    {
    }

    /// A backspace undoes the insertion before it: content and cursor are
    /// what they were.
    pub proof fn lemma_insert_then_backspace(self, c: char)
        requires
            self.wf(),
        ensures
            self.insert(c).backspace() == self,
    {
        let after = self.insert(c);
        assert(after.content.remove(self.cursor) =~= self.content);
    }

    /// Inserting the characters of a text one after the other is pasting the
    /// text: it ends up in one piece where the cursor was, in its own order,
    /// with the cursor just behind it. No step of it wraps.
    pub proof fn lemma_insert_all_is_paste(self, text: Seq<char>)
        requires
            self.wf(),
        ensures
            self.insert_all(text) == self.paste(text),
        decreases text.len(),
    {
        if text.len() == 0 {
            assert(self.paste(text).content =~= self.content);
        } else {
            let before = self.insert_all(text.drop_last());
            self.lemma_insert_all_is_paste(text.drop_last());
            assert(before.insert(text.last()).content =~= self.paste(text).content);
        }
    }
}

/// The input line.
#[derive(Debug)]
pub struct TextBuffer {
    content: String,
    cursor: usize,
}

impl View for TextBuffer {
    type V = TextBufferView;

    closed spec fn view(&self) -> TextBufferView {
        TextBufferView { content: self.content@, cursor: self.cursor as int }
    }
}

impl TextBuffer {
    #[verifier::type_invariant]
    spec fn cursor_in_text(&self) -> bool {
        self.cursor <= self.content@.len()
    }

    /// An empty buffer with the cursor at the start.
    pub fn new() -> (buffer: Self)
        ensures
            buffer@ == TextBufferView::empty(),
    {
        TextBuffer { content: String::new(), cursor: 0 }
    }

    /// The text.
    pub fn content(&self) -> (text: &str)
        ensures
            text@ == self@.content,
    {
        self.content.as_str()
    }

    /// The cursor's offset, counted in characters. It never exceeds the
    /// number of characters.
    pub fn cursor(&self) -> (cursor: usize)
        ensures
            cursor == self@.cursor,
            self@.wf(),
    {
        proof {
            use_type_invariant(self);
        }
        self.cursor
    }

    /// The number of characters.
    pub fn len(&self) -> (len: usize)
        ensures
            len == self@.content.len(),
    {
        self.content.as_str().unicode_len()
    }

    /// Inserts `c` at the cursor and moves the cursor behind it.
    pub fn insert(&mut self, c: char)
        ensures
            final(self)@ == old(self)@.insert(c),
            final(self)@.cursor == old(self)@.cursor + 1,
            final(self)@.content.len() == old(self)@.content.len() + 1,
            final(self)@.wf(),
    {
        proof {
            use_type_invariant(&*self);
        }
        let text = self.content.as_str();
        let len = text.unicode_len();
        let mut content = String::from_str(text.substring_char(0, self.cursor));
        content.push(c);
        content.append(text.substring_char(self.cursor, len));
        let new_len = content.as_str().unicode_len();
        let next = self.cursor + 1;
        self.content = content;
        self.cursor = if next > new_len { 0 } else { next };
    }

    /// Deletes the character under the cursor, if there is one.
    pub fn remove_at_cursor(&mut self)
        ensures
            final(self)@ == old(self)@.remove_at_cursor(),
            final(self)@.wf(),
    {
        proof {
            use_type_invariant(&*self);
        }
        let text = self.content.as_str();
        let len = text.unicode_len();
        if self.cursor < len {
            let mut content = String::from_str(text.substring_char(0, self.cursor));
            content.append(text.substring_char(self.cursor + 1, len));
            self.content = content;
        }
    }

    /// Deletes the character before the cursor, if there is one, and moves
    /// the cursor onto its place.
    pub fn backspace(&mut self)
        ensures
            final(self)@ == old(self)@.backspace(),
            final(self)@.wf(),
    {
        proof {
            use_type_invariant(&*self);
        }
        if self.cursor > 0 {
            let text = self.content.as_str();
            let len = text.unicode_len();
            let before = self.cursor - 1;
            let mut content = String::from_str(text.substring_char(0, before));
            content.append(text.substring_char(self.cursor, len));
            self.cursor = before;
            self.content = content;
        }
    }

    /// Moves the cursor one character to the left, around the start.
    pub fn move_left(&mut self)
        ensures
            final(self)@ == old(self)@.move_left(),
            final(self)@.wf(),
            old(self)@.cursor == 0 && old(self)@.content.len() >= 2 ==> final(self)@.cursor
                == old(self)@.content.len() - 1,
    {
        proof {
            use_type_invariant(&*self);
        }
        if self.cursor != 0 {
            self.cursor = self.cursor - 1;
        } else {
            let len = self.content.as_str().unicode_len();
            if len > 1 {
                self.cursor = len - 1;
            }
        }
    }

    /// Moves the cursor one character to the right, around the end.
    pub fn move_right(&mut self)
        ensures
            final(self)@ == old(self)@.move_right(),
            final(self)@.wf(),
            old(self)@.content.len() >= 2 && old(self)@.cursor == old(self)@.content.len() - 1
                ==> final(self)@.cursor == 0,
    {
        proof {
            use_type_invariant(&*self);
        }
        let len = self.content.as_str().unicode_len();
        if len - self.cursor > 1 {
            self.cursor = self.cursor + 1;
        } else {
            self.cursor = 0;
        }
    }

    /// Replaces the text by `text` and keeps the cursor in range.
    pub fn set(&mut self, text: &str)
        ensures
            final(self)@ == old(self)@.set(text@),
            final(self)@.wf(),
    {
        proof {
            use_type_invariant(&*self);
        }
        let len = text.unicode_len();
        if self.cursor > len {
            self.cursor = len;
        }
        self.content = String::from_str(text);
    }

    /// Empties the buffer and puts the cursor at the start.
    pub fn clear(&mut self)
        ensures
            final(self)@ == TextBufferView::empty(),
    {
        self.cursor = 0;
        self.content = String::new();
    }
}

} // verus!
