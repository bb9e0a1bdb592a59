//! The yank buffer: one slot of text, filled by a yank and read by a paste.

use vstd::prelude::*;
use vstd::string::*;
use crate::text_buffer::TextBuffer;

verus! {

/// A single-slot clipboard. Its view is the text it holds.
#[derive(Debug)]
pub struct Clipboard {
    buffer: String,
}

impl View for Clipboard {
    type V = Seq<char>;

    closed spec fn view(&self) -> Seq<char> {
        self.buffer@
    }
}

impl Clipboard {
    /// An empty clipboard.
    pub fn new() -> (clipboard: Self)
        ensures
            clipboard@ == Seq::<char>::empty(),
    {
        Clipboard { buffer: String::new() }
    }

    /// The text that the last yank left here.
    pub fn buffer(&self) -> (text: &str)
        ensures
            text@ == self@,
    {
        self.buffer.as_str()
    }

    /// Copies `source` into the clipboard. What was there before is gone.
    pub fn yank(&mut self, source: &str)
        ensures
            final(self)@ == source@,
    {
        self.buffer = String::from_str(source);
    }

    /// Inserts the clipboard's text into `target` at its cursor, one
    /// character after the other, each as a key press would insert it. The
    /// text ends up in one piece where the cursor was and the cursor ends
    /// behind it. The clipboard keeps its text.
    ///
    /// Each character goes through [`TextBuffer::insert`] with its wrap
    /// rule. That rule never fires here, not even when the text is pasted
    /// at the very end: an insertion makes the text longer by the one place
    /// that the cursor advances.
    pub fn paste_into(&self, target: &mut TextBuffer)
        ensures
            final(target)@ == old(target)@.paste(self@),
            final(target)@ == old(target)@.insert_all(self@),
            final(target)@.wf(),
    {
        let text = self.buffer.as_str();
        let count = text.unicode_len();
        // Reading the cursor brings the fact that it lies inside the text.
        let _ = target.cursor();
        let ghost start = target@;
        let mut i: usize = 0;
        while i < count
            invariant
                i <= count,
                count == text@.len(),
                start.wf(),
                target@ == start.insert_all(text@.subrange(0, i as int)),
            decreases count - i,
        {
            target.insert(text.get_char(i));
            proof {
                let done = text@.subrange(0, i + 1);
                assert(done.drop_last() =~= text@.subrange(0, i as int));
                assert(done.last() == text@[i as int]);
            }
            i = i + 1;
        }
        proof {
            assert(text@.subrange(0, count as int) =~= text@);
            start.lemma_insert_all_is_paste(text@);
        }
    }
}

} // verus!
