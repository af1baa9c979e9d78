//! Word wrapping of one item for a viewport of fixed width.
//!
//! An item is laid out as a primary line, which carries the bullet and the
//! checkbox, and continuation lines indented to the column where the text
//! of the primary line begins. Widths are counted in characters.

use crate::chars::{
    append_chars, copy_range, is_whitespace, is_whitespace_char, push_spaces, rows, spaces,
    to_chars, to_string,
};
use crate::model::{ItemView, TodoItem};
use vstd::prelude::*;

verus! {

/// The marker that shows where the edit cursor stands.
pub const CURSOR: char = '|';

/// `text` with the cursor marker put in at character position `cursor`, or
/// at the end where `cursor` lies beyond it.
pub open spec fn with_cursor(text: Seq<char>, cursor: nat) -> Seq<char> {
    if cursor <= text.len() {
        text.insert(cursor as int, CURSOR)
    } else {
        text.push(CURSOR)
    }
}

/// The line that is being built, as a sequence of finished lines: none
/// where it is empty.
pub open spec fn flush(cur: Seq<char>) -> Seq<Seq<char>> {
    if cur.len() > 0 {
        seq![cur]
    } else {
        Seq::empty()
    }
}

/// The words of `s` read from left to right, where `cur` holds the
/// characters of the word that is being read.
pub open spec fn split(s: Seq<char>, cur: Seq<char>) -> Seq<Seq<char>>
    decreases s.len(),
{
    if s.len() == 0 {
        flush(cur)
    } else if is_whitespace(s[0]) {
        flush(cur) + split(s.drop_first(), Seq::empty())
    } else {
        split(s.drop_first(), cur.push(s[0]))
    }
}

/// The words of `s`: its maximal runs of characters that are not white
/// space, in order.
pub open spec fn words(s: Seq<char>) -> Seq<Seq<char>> {
    split(s, Seq::empty())
}

/// The leading pieces of `width` characters that are cut off a word for as
/// long as more than `width` characters are left of it.
pub open spec fn full_chunks(word: Seq<char>, width: nat) -> Seq<Seq<char>>
    decreases word.len(),
{
    if width > 0 && word.len() > width {
        seq![word.take(width as int)] + full_chunks(word.skip(width as int), width)
    } else {
        Seq::empty()
    }
}

/// What is left of a word once its full chunks are cut off: between one
/// and `width` characters of a word that is not empty.
pub open spec fn last_chunk(word: Seq<char>, width: nat) -> Seq<char>
    decreases word.len(),
{
    if width > 0 && word.len() > width {
        last_chunk(word.skip(width as int), width)
    } else {
        word
    }
}

/// Greedy packing of `words` into lines of at most `width` characters,
/// where `cur` is the line that is being built.
///
/// A word goes onto the current line, after one space, while it fits. A
/// word that does not fit starts a new line. A word longer than `width`
/// ends the current line and is cut into chunks of `width` characters, each
/// a line of its own; what is left of it starts the next line.
pub open spec fn pack(words: Seq<Seq<char>>, width: nat, cur: Seq<char>) -> Seq<Seq<char>>
    decreases words.len(),
{
    if words.len() == 0 {
        flush(cur)
    } else {
        let word = words[0];
        let rest = words.drop_first();
        if word.len() > width {
            flush(cur) + full_chunks(word, width) + pack(rest, width, last_chunk(word, width))
        } else if cur.len() == 0 {
            pack(rest, width, word)
        } else if cur.len() + 1 + word.len() > width {
            seq![cur] + pack(rest, width, word)
        } else {
            pack(rest, width, cur + seq![' '] + word)
        }
    }
}

/// The display lines of an item whose text to show is `text`, each with the
/// flag that tells the primary line from continuation lines.
///
/// Where the viewport is no wider than the prefix, the whole text stands
/// unbroken on the primary line. Text without words gives the prefix alone.
pub open spec fn layout(item: ItemView, available_width: nat, text: Seq<char>) -> Seq<
    (Seq<char>, bool),
> {
    let p = item.prefix();
    if available_width <= p.len() {
        seq![(p + text, true)]
    } else {
        let lines = pack(words(text), (available_width - p.len()) as nat, Seq::empty());
        if lines.len() == 0 {
            seq![(p, true)]
        } else {
            Seq::new(
                lines.len(),
                |i: int|
                    if i == 0 {
                        (p + lines[0], true)
                    } else {
                        (spaces(p.len()) + lines[i], false)
                    },
            )
        }
    }
}

/// The text that is shown for an item: the edit buffer with the cursor
/// marker while the item is selected and being edited, else its own text.
pub open spec fn shown_text(
    item: ItemView,
    is_selected: bool,
    edit_text: Seq<char>,
    edit_cursor: nat,
    is_editing: bool,
) -> Seq<char> {
    if is_editing && is_selected {
        with_cursor(edit_text, edit_cursor)
    } else {
        item.text
    }
}

/// Display lines as texts.
pub open spec fn line_views(lines: Seq<(String, bool)>) -> Seq<(Seq<char>, bool)> {
    Seq::new(lines.len(), |i: int| (lines[i].0@, lines[i].1))
}

/// The words of `text`.
pub fn split_words(text: &Vec<char>) -> (out: Vec<Vec<char>>)
    ensures
        rows(out@) == words(text@),
{
    let mut out: Vec<Vec<char>> = Vec::new();
    let mut cur: Vec<char> = Vec::new();
    let mut i: usize = 0;
    assert(text@.skip(0) =~= text@);
    while i < text.len()
        invariant
            i <= text.len(),
            rows(out@) + split(text@.skip(i as int), cur@) == words(text@),
        decreases text.len() - i,
    {
        let c = text[i];
        assert(text@.skip(i as int).drop_first() =~= text@.skip(i + 1));
        if is_whitespace_char(c) {
            if cur.len() > 0 {
                out.push(cur);
                cur = Vec::new();
            } else {
                assert(cur@ =~= Seq::<char>::empty());
            }
        } else {
            cur.push(c);
        }
        i += 1;
    }
    if cur.len() > 0 {
        out.push(cur);
    }
    out
}

/// Packs `words` into lines of at most `width` characters. Where `width`
/// is zero no word fits, and each word is a line of its own.
pub fn pack_words(words: &Vec<Vec<char>>, width: usize) -> (lines: Vec<Vec<char>>)
    ensures
        rows(lines@) == pack(rows(words@), width as nat, Seq::empty()),
{
    let ghost all = rows(words@);
    let ghost w = width as nat;
    let mut lines: Vec<Vec<char>> = Vec::new();
    let mut cur: Vec<char> = Vec::new();
    let mut k: usize = 0;
    assert(all.skip(0) =~= all);
    while k < words.len()
        invariant
            k <= words.len(),
            w == width,
            all == rows(words@),
            rows(lines@) + pack(all.skip(k as int), w, cur@) == pack(all, w, Seq::empty()),
        decreases words.len() - k,
    {
        let word = &words[k];
        let ghost done = rows(lines@);
        let ghost line = cur@;
        assert(all.skip(k as int).drop_first() =~= all.skip(k + 1));
        if word.len() > width {
            if cur.len() > 0 {
                lines.push(cur);
            }
            let mut start: usize = 0;
            assert(word@.skip(0) =~= word@);
            while width > 0 && word.len() - start > width
                invariant
                    w == width,
                    start < word.len(),
                    rows(lines@) + full_chunks(word@.skip(start as int), w) == done + flush(line)
                        + full_chunks(word@, w),
                    last_chunk(word@.skip(start as int), w) == last_chunk(word@, w),
                decreases word.len() - start,
            {
                let chunk = copy_range(word, start, start + width);
                proof {
                    let tail = word@.skip(start as int);
                    assert(tail.take(w as int) =~= chunk@);
                    assert(tail.skip(w as int) =~= word@.skip(start + width));
                }
                lines.push(chunk);
                start += width;
            }
            cur = copy_range(word, start, word.len());
        } else if cur.len() == 0 {
            cur = copy_range(word, 0, word.len());
            assert(cur@ =~= word@);
        } else if cur.len() >= width || word.len() >= width - cur.len() {
            lines.push(cur);
            cur = copy_range(word, 0, word.len());
            assert(cur@ =~= word@);
        } else {
            cur.push(' ');
            append_chars(&mut cur, word);
            assert(cur@ =~= line + seq![' '] + word@);
        }
        k += 1;
    }
    if cur.len() > 0 {
        lines.push(cur);
    }
    lines
}

/// Lays out `text` as the text of `item` in a viewport of `available_width`
/// characters.
pub fn layout_lines(item: &TodoItem, available_width: usize, text: &Vec<char>) -> (lines: Vec<
    (String, bool),
>)
    ensures
        line_views(lines@) == layout(item@, available_width as nat, text@),
{
    let p = item.prefix_chars();
    let ghost expected = layout(item@, available_width as nat, text@);
    let mut out: Vec<(String, bool)> = Vec::new();
    if available_width <= p.len() {
        let mut first = p;
        append_chars(&mut first, text);
        out.push((to_string(&first), true));
        return out;
    }
    let width = available_width - p.len();
    let words = split_words(text);
    let packed = pack_words(&words, width);
    if packed.len() == 0 {
        out.push((to_string(&p), true));
        return out;
    }
    let mut i: usize = 0;
    while i < packed.len()
        invariant
            i <= packed.len(),
            packed.len() > 0,
            out@.len() == i,
            expected.len() == packed.len(),
            p@ == item@.prefix(),
            forall|j: int|
                0 <= j < packed.len() ==> #[trigger] expected[j] == if j == 0 {
                    (p@ + packed@[0]@, true)
                } else {
                    (spaces(p@.len()) + packed@[j]@, false)
                },
            forall|j: int| 0 <= j < i ==> #[trigger] line_views(out@)[j] == expected[j],
        decreases packed.len() - i,
    {
        let mut line: Vec<char> = Vec::new();
        if i == 0 {
            append_chars(&mut line, &p);
        } else {
            push_spaces(&mut line, p.len());
        }
        append_chars(&mut line, &packed[i]);
        let ghost before = out@;
        out.push((to_string(&line), i == 0));
        assert forall|j: int| 0 <= j < i + 1 implies #[trigger] line_views(out@)[j]
            == expected[j] by {
            if j < i {
                assert(line_views(before)[j] == expected[j]);
            }
        }
        i += 1;
    }
    out
}

/// The display lines of `item` in a viewport `available_width` characters
/// wide, each with the flag that marks the primary line.
///
/// While the item is selected and being edited, the edit buffer is shown in
/// place of its text, with the cursor marker at `edit_cursor`.
pub fn wrap_todo_item_text(
    item: &TodoItem,
    available_width: usize,
    is_selected: bool,
    edit_text: &str,
    edit_cursor: usize,
    is_editing: bool,
) -> (lines: Vec<(String, bool)>)
    ensures
        line_views(lines@) == layout(
            item@,
            available_width as nat,
            shown_text(item@, is_selected, edit_text@, edit_cursor as nat, is_editing),
        ),
{
    if is_editing && is_selected {
        let mut text = to_chars(edit_text);
        let at = if edit_cursor <= text.len() {
            edit_cursor
        } else {
            text.len()
        };
        text.insert(at, CURSOR);
        assert(text@ =~= with_cursor(edit_text@, edit_cursor as nat));
        layout_lines(item, available_width, &text)
    } else {
        let text = to_chars(item.text.as_str());
        layout_lines(item, available_width, &text)
    }
}

} // verus!
