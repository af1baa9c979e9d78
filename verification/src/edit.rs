//! The edit buffer: a text and a cursor, both addressed by character.
//!
//! A character that takes several bytes in storage is one step of the cursor
//! in every operation.

use crate::chars::{to_chars, to_string};
use vstd::prelude::*;
use vstd::string::StrSliceExecFns;

verus! {

/// What an edit buffer is, in specifications.
#[verifier::ext_equal]
pub struct BufferView {
    pub text: Seq<char>,
    pub cursor: nat,
}

impl BufferView {
    /// The cursor stands at a character position of the text or at its end.
    pub open spec fn wf(self) -> bool {
        self.cursor <= self.text.len()
    }

    /// The cursor position, brought back to the end of the text where it
    /// lies beyond it.
    pub open spec fn position(self) -> nat {
        if self.cursor <= self.text.len() {
            self.cursor
        } else {
            self.text.len()
        }
    }

    /// `c` put in at the cursor, and the cursor behind it.
    pub open spec fn insert(self, c: char) -> BufferView {
        BufferView {
            text: self.text.insert(self.position() as int, c),
            cursor: self.position() + 1,
        }
    }

    /// The character before the cursor taken out, and the cursor moved
    /// onto its place; no change at the start of the text.
    pub open spec fn delete_before(self) -> BufferView {
        if 0 < self.cursor <= self.text.len() {
            BufferView {
                text: self.text.remove(self.cursor - 1),
                cursor: (self.cursor - 1) as nat,
            }
        } else {
            self
        }
    }

    /// The character at the cursor taken out; no change at the end of the
    /// text.
    pub open spec fn delete_at(self) -> BufferView {
        if self.cursor < self.text.len() {
            BufferView { text: self.text.remove(self.cursor as int), ..self }
        } else {
            self
        }
    }

    /// The cursor one character to the left, unless it stands at the start.
    pub open spec fn move_left(self) -> BufferView {
        if self.cursor == 0 {
            self
        } else if self.cursor - 1 <= self.text.len() {
            BufferView { cursor: (self.cursor - 1) as nat, ..self }
        } else {
            BufferView { cursor: self.text.len(), ..self }
        }
    }

    /// The cursor one character to the right, unless it stands at the end.
    pub open spec fn move_right(self) -> BufferView {
        if self.cursor < self.text.len() {
            BufferView { cursor: self.cursor + 1, ..self }
        } else {
            BufferView { cursor: self.text.len(), ..self }
        }
    }

    /// The cursor at the start.
    pub open spec fn move_home(self) -> BufferView {
        BufferView { cursor: 0, ..self }
    }

    /// The cursor at the end.
    pub open spec fn move_end(self) -> BufferView {
        BufferView { cursor: self.text.len(), ..self }
    }

    /// The buffer that opens on `text`, with the cursor at its end.
    pub open spec fn open(text: Seq<char>) -> BufferView {
        BufferView { text, cursor: text.len() }
    }

    /// The empty buffer.
    pub open spec fn empty() -> BufferView {
        BufferView { text: Seq::empty(), cursor: 0 }
    }
}

/// Every operation of the buffer leaves the cursor inside the text, from
/// whatever buffer it starts.
pub proof fn lemma_operations_keep_cursor_in_text(b: BufferView, c: char)
    ensures
        b.insert(c).wf(),
        b.move_left().wf(),
        b.move_right().wf(),
        b.move_home().wf(),
        b.move_end().wf(),
        b.wf() ==> b.delete_before().wf() && b.delete_at().wf(),
        BufferView::open(b.text).wf(),
        BufferView::empty().wf(),
{
}

/// Deleting before the cursor undoes an insertion.
pub proof fn lemma_insert_then_delete_before(b: BufferView, c: char)
    requires
        b.wf(),
    ensures
        b.insert(c).delete_before() == b,
{
}

/// An insertion makes the text longer by one character: `c` stands where
/// the cursor stood, the characters before it stay where they were, and
/// those from the cursor on move by one place.
pub proof fn lemma_insert_keeps_the_rest(b: BufferView, c: char)
    requires
        b.wf(),
    ensures
        b.insert(c).text.len() == b.text.len() + 1,
        b.insert(c).text[b.cursor as int] == c,
        b.insert(c).cursor == b.cursor + 1,
        forall|i: int| 0 <= i < b.cursor ==> b.insert(c).text[i] == #[trigger] b.text[i],
        forall|i: int|
            b.cursor <= i < b.text.len() ==> b.insert(c).text[i + 1] == #[trigger] b.text[i],
{
}

/// A text that is being edited, and the character position of the cursor
/// in it.
#[derive(Debug)]
pub struct EditBuffer {
    pub text: String,
    pub cursor: usize,
}

impl View for EditBuffer {
    type V = BufferView;

    open spec fn view(&self) -> BufferView {
        BufferView { text: self.text@, cursor: self.cursor as nat }
    }
}

/// Number of characters of `text`.
pub fn char_count(text: &str) -> (n: usize)
    ensures
        n == text@.len(),
{
    text.unicode_len()
}

/// Takes the character at position `char_index` out of `text`, and says
/// whether there was one.
pub fn remove_char_at(text: &mut String, char_index: usize) -> (removed: bool)
    ensures
        removed == (char_index < old(text)@.len()),
        removed ==> final(text)@ == old(text)@.remove(char_index as int),
        !removed ==> final(text)@ == old(text)@,
{
    let mut chars = to_chars(text.as_str());
    if char_index < chars.len() {
        chars.remove(char_index);
        *text = to_string(&chars);
        true
    } else {
        false
    }
}

/// Puts `c` into `text` at position `char_index`, or at the end where
/// `char_index` lies beyond it, and returns the position it was put at.
pub fn insert_char_at(text: &mut String, char_index: usize, c: char) -> (at: usize)
    ensures
        at == if char_index <= old(text)@.len() {
            char_index as int
        } else {
            old(text)@.len() as int
        },
        at < final(text)@.len() <= usize::MAX,
        final(text)@ == old(text)@.insert(at as int, c),
{
    let mut chars = to_chars(text.as_str());
    let at = if char_index <= chars.len() {
        char_index
    } else {
        chars.len()
    };
    chars.insert(at, c);
    assert(at < chars.len());
    *text = to_string(&chars);
    at
}

impl EditBuffer {
    /// The empty buffer.
    pub fn new() -> (b: EditBuffer)
        ensures
            b@ == BufferView::empty(),
            b@.wf(),
    {
        EditBuffer { text: String::new(), cursor: 0 }
    }

    /// The buffer that opens on `text`, with the cursor at its end.
    pub fn open(text: &str) -> (b: EditBuffer)
        ensures
            b@ == BufferView::open(text@),
            b@.wf(),
    {
        EditBuffer { text: text.to_owned(), cursor: char_count(text) }
    }

    /// Puts `c` in at the cursor and moves the cursor behind it.
    pub fn insert(&mut self, c: char)
        ensures
            final(self)@ == old(self)@.insert(c),
            final(self)@.wf(),
    {
        let at = insert_char_at(&mut self.text, self.cursor, c);
        self.cursor = at + 1;
    }

    /// Takes out the character before the cursor.
    pub fn delete_before(&mut self)
        ensures
            final(self)@ == old(self)@.delete_before(),
            old(self)@.wf() ==> final(self)@.wf(),
    {
        if self.cursor > 0 {
            if remove_char_at(&mut self.text, self.cursor - 1) {
                self.cursor = self.cursor - 1;
            }
        }
    }

    /// Takes out the character at the cursor.
    pub fn delete_at(&mut self)
        ensures
            final(self)@ == old(self)@.delete_at(),
            old(self)@.wf() ==> final(self)@.wf(),
    {
        let _ = remove_char_at(&mut self.text, self.cursor);
    }

    /// Moves the cursor one character to the left.
    pub fn move_left(&mut self)
        ensures
            final(self)@ == old(self)@.move_left(),
            final(self)@.wf(),
    {
        if self.cursor > 0 {
            let n = char_count(self.text.as_str());
            self.cursor = if self.cursor - 1 <= n {
                self.cursor - 1
            } else {
                n
            };
        }
    }

    /// Moves the cursor one character to the right.
    pub fn move_right(&mut self)
        ensures
            final(self)@ == old(self)@.move_right(),
            final(self)@.wf(),
    {
        let n = char_count(self.text.as_str());
        self.cursor = if self.cursor < n {
            self.cursor + 1
        } else {
            n
        };
    }

    /// Moves the cursor to the start.
    pub fn move_home(&mut self)
        ensures
            final(self)@ == old(self)@.move_home(),
            final(self)@.wf(),
    {
        self.cursor = 0;
    }

    /// Moves the cursor to the end.
    pub fn move_end(&mut self)
        ensures
            final(self)@ == old(self)@.move_end(),
            final(self)@.wf(),
    {
        self.cursor = char_count(self.text.as_str());
    }

    /// Empties the buffer.
    pub fn clear(&mut self)
        ensures
            final(self)@ == BufferView::empty(),
    {
        self.text = String::new();
        self.cursor = 0;
    }
}

} // verus!
