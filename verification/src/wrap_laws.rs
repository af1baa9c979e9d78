//! What holds of every layout: no line is wider than the viewport, a word
//! that is too long is cut into chunks of the width of the line, the first
//! line alone is primary, and no character of the text is lost.

use crate::chars::{is_whitespace, spaces};
use crate::model::ItemView;
use crate::wrap::{flush, full_chunks, last_chunk, layout, pack, split, words};
use vstd::prelude::*;

verus! {

/// No white space stands in `word`.
pub open spec fn no_whitespace(word: Seq<char>) -> bool {
    forall|i: int| 0 <= i < word.len() ==> !is_whitespace(#[trigger] word[i])
}

/// The word at position `k` of those that are read is a run of characters
/// that are not white space, and has at least one character.
proof fn lemma_split_word_at(s: Seq<char>, cur: Seq<char>, k: int)
    requires
        no_whitespace(cur),
        0 <= k < split(s, cur).len(),
    ensures
        split(s, cur)[k].len() > 0,
        no_whitespace(split(s, cur)[k]),
    decreases s.len(),
{
    if s.len() > 0 {
        if !is_whitespace(s[0]) {
            lemma_split_word_at(s.drop_first(), cur.push(s[0]), k);
        } else if k >= flush(cur).len() {
            lemma_split_word_at(s.drop_first(), Seq::empty(), k - flush(cur).len());
        }
    }
}

/// Each full chunk of a word has exactly `width` characters.
proof fn lemma_full_chunks(word: Seq<char>, width: nat, k: int)
    requires
        0 <= k < full_chunks(word, width).len(),
    ensures
        full_chunks(word, width)[k].len() == width,
    decreases word.len(),
{
    if width > 0 && word.len() > width {
        if k > 0 {
            lemma_full_chunks(word.skip(width as int), width, k - 1);
        }
    }
}

/// What is left behind the full chunks of a word has at most `width`
/// characters, and at least one where the word has any.
proof fn lemma_last_chunk(word: Seq<char>, width: nat)
    requires
        width >= 1,
    ensures
        last_chunk(word, width).len() <= width,
        word.len() > 0 ==> last_chunk(word, width).len() > 0,
    decreases word.len(),
{
    if word.len() > width {
        lemma_last_chunk(word.skip(width as int), width);
    }
}

/// All characters of the full chunks of a word, in order.
pub open spec fn joined(chunks: Seq<Seq<char>>) -> Seq<char>
    decreases chunks.len(),
{
    if chunks.len() == 0 {
        Seq::empty()
    } else {
        chunks[0] + joined(chunks.drop_first())
    }
}

/// The chunks of a word, put together again, are the word.
proof fn lemma_chunks_join(word: Seq<char>, width: nat)
    ensures
        joined(full_chunks(word, width)) + last_chunk(word, width) == word,
    decreases word.len(),
{
    if width > 0 && word.len() > width {
        let rest = word.skip(width as int);
        lemma_chunks_join(rest, width);
        let chunks = full_chunks(word, width);
        assert(chunks.drop_first() =~= full_chunks(rest, width));
        assert(word.take(width as int) + (joined(full_chunks(rest, width)) + last_chunk(
            rest,
            width,
        )) =~= word);
    }
}

/// The packed line at position `k` is not longer than `width`, and not
/// empty where no word is.
proof fn lemma_pack_fits_at(words: Seq<Seq<char>>, width: nat, cur: Seq<char>, k: int)
    requires
        width >= 1,
        cur.len() <= width,
        0 <= k < pack(words, width, cur).len(),
    ensures
        pack(words, width, cur)[k].len() <= width,
        (forall|j: int| 0 <= j < words.len() ==> (#[trigger] words[j]).len() > 0) ==> pack(
            words,
            width,
            cur,
        )[k].len() > 0,
    decreases words.len(),
{
    if words.len() > 0 {
        let word = words[0];
        let rest = words.drop_first();
        assert forall|j: int| 0 <= j < rest.len() implies #[trigger] rest[j] == words[j + 1] by {}
        if word.len() > width {
            let head = flush(cur) + full_chunks(word, width);
            lemma_last_chunk(word, width);
            if k >= head.len() {
                lemma_pack_fits_at(rest, width, last_chunk(word, width), k - head.len());
            } else if k >= flush(cur).len() {
                lemma_full_chunks(word, width, k - flush(cur).len());
            }
        } else if cur.len() == 0 {
            lemma_pack_fits_at(rest, width, word, k);
        } else if cur.len() + 1 + word.len() > width {
            if k > 0 {
                lemma_pack_fits_at(rest, width, word, k - 1);
            }
        } else {
            lemma_pack_fits_at(rest, width, cur + seq![' '] + word, k);
        }
    }
}

/// A single word that is longer than the line is cut into chunks of
/// exactly the width of the line, which are lines of their own in the order
/// of the word, and what is left of it is the last line.
pub proof fn lemma_forced_break(word: Seq<char>, width: nat)
    requires
        width >= 1,
        word.len() > width,
    ensures
        pack(seq![word], width, Seq::empty()) == full_chunks(word, width).push(
            last_chunk(word, width),
        ),
        forall|k: int|
            0 <= k < full_chunks(word, width).len() ==> (#[trigger] full_chunks(
                word,
                width,
            )[k]).len() == width,
        0 < last_chunk(word, width).len() <= width,
        joined(full_chunks(word, width)) + last_chunk(word, width) == word,
{
    lemma_last_chunk(word, width);
    lemma_chunks_join(word, width);
    let left = last_chunk(word, width);
    assert(pack(seq![word].drop_first(), width, left) == seq![left]);
    assert forall|k: int| 0 <= k < full_chunks(word, width).len() implies (#[trigger] full_chunks(
        word,
        width,
    )[k]).len() == width by {
        lemma_full_chunks(word, width, k);
    }
}

/// Every word of a text has at least one character and holds no white
/// space.
pub proof fn lemma_words_are_solid(text: Seq<char>)
    ensures
        forall|k: int|
            0 <= k < words(text).len() ==> (#[trigger] words(text)[k]).len() > 0 && no_whitespace(
                words(text)[k],
            ),
{
    assert forall|k: int| 0 <= k < words(text).len() implies (#[trigger] words(text)[k]).len() > 0
        && no_whitespace(words(text)[k]) by {
        lemma_split_word_at(text, Seq::empty(), k);
    }
}

/// No packed line is longer than the width, whatever the words; and none
/// is empty where no word is.
pub proof fn lemma_lines_fit(words: Seq<Seq<char>>, width: nat)
    requires
        width >= 1,
    ensures
        forall|k: int|
            0 <= k < pack(words, width, Seq::empty()).len() ==> (#[trigger] pack(
                words,
                width,
                Seq::empty(),
            )[k]).len() <= width,
        (forall|j: int| 0 <= j < words.len() ==> (#[trigger] words[j]).len() > 0) ==> forall|k: int|
            0 <= k < pack(words, width, Seq::empty()).len() ==> (#[trigger] pack(
                words,
                width,
                Seq::empty(),
            )[k]).len() > 0,
{
    let lines = pack(words, width, Seq::empty());
    assert forall|k: int| 0 <= k < lines.len() implies (#[trigger] lines[k]).len() <= width by {
        lemma_pack_fits_at(words, width, Seq::empty(), k);
    }
    if (forall|j: int| 0 <= j < words.len() ==> (#[trigger] words[j]).len() > 0) {
        assert forall|k: int| 0 <= k < lines.len() implies (#[trigger] lines[k]).len() > 0 by {
            lemma_pack_fits_at(words, width, Seq::empty(), k);
        }
    }
}

/// Every layout has a line. Its first line alone is primary and begins
/// with the prefix of the item; every other line begins with as many spaces
/// as the prefix is long.
pub proof fn lemma_layout_shape(item: ItemView, available_width: nat, text: Seq<char>)
    ensures
        layout(item, available_width, text).len() >= 1,
        item.prefix().is_prefix_of(layout(item, available_width, text)[0].0),
        forall|k: int|
            0 <= k < layout(item, available_width, text).len() ==> (#[trigger] layout(
                item,
                available_width,
                text,
            )[k]).1 == (k == 0),
        forall|k: int|
            0 < k < layout(item, available_width, text).len() ==> spaces(
                item.prefix().len(),
            ).is_prefix_of((#[trigger] layout(item, available_width, text)[k]).0),
{
}

/// In a viewport that is wider than the prefix no line is wider than the
/// viewport, whatever the text, and every line behind the first holds at
/// least one character of the text.
pub proof fn lemma_layout_fits(item: ItemView, available_width: nat, text: Seq<char>)
    requires
        available_width > item.prefix().len(),
    ensures
        forall|k: int|
            0 <= k < layout(item, available_width, text).len() ==> (#[trigger] layout(
                item,
                available_width,
                text,
            )[k]).0.len() <= available_width,
        forall|k: int|
            0 < k < layout(item, available_width, text).len() ==> (#[trigger] layout(
                item,
                available_width,
                text,
            )[k]).0.len() > item.prefix().len(),
{
    lemma_words_are_solid(text);
    lemma_lines_fit(words(text), (available_width - item.prefix().len()) as nat);
}

/// The characters of `s` that are not white space, in order.
pub open spec fn solid(s: Seq<char>) -> Seq<char>
    decreases s.len(),
{
    if s.len() == 0 {
        Seq::empty()
    } else if is_whitespace(s.last()) {
        solid(s.drop_last())
    } else {
        solid(s.drop_last()).push(s.last())
    }
}

/// The solid characters of two texts in a row are those of the first and
/// then those of the second.
proof fn lemma_solid_add(a: Seq<char>, b: Seq<char>)
    ensures
        solid(a + b) == solid(a) + solid(b),
    decreases b.len(),
{
    if b.len() > 0 {
        assert((a + b).drop_last() =~= a + b.drop_last());
        lemma_solid_add(a, b.drop_last());
    }
}

/// A text without white space is solid as it is.
proof fn lemma_solid_word(word: Seq<char>)
    requires
        no_whitespace(word),
    ensures
        solid(word) == word,
    decreases word.len(),
{
    if word.len() > 0 {
        lemma_solid_word(word.drop_last());
    }
}

/// Joining is done piece by piece.
proof fn lemma_joined_add(a: Seq<Seq<char>>, b: Seq<Seq<char>>)
    ensures
        joined(a + b) == joined(a) + joined(b),
    decreases a.len(),
{
    if a.len() > 0 {
        assert((a + b).drop_first() =~= a.drop_first() + b);
        lemma_joined_add(a.drop_first(), b);
    }
}

/// A single piece, joined, is the piece; no pieces, joined, are nothing.
proof fn lemma_joined_flush(cur: Seq<char>)
    ensures
        joined(flush(cur)) == cur,
        joined(seq![cur]) == cur,
{
    assert(joined(seq![cur].drop_first()) == Seq::<char>::empty());
}

/// A single character is solid unless it is white space.
proof fn lemma_solid_one(c: char)
    ensures
        solid(seq![c]) == if is_whitespace(c) {
            Seq::<char>::empty()
        } else {
            seq![c]
        },
{
    assert(solid(seq![c].drop_last()) == Seq::<char>::empty());
}

/// The words of a text, one after the other, are its characters that are
/// not white space: reading words loses and adds nothing else.
proof fn lemma_split_keeps_text(s: Seq<char>, cur: Seq<char>)
    requires
        no_whitespace(cur),
    ensures
        joined(split(s, cur)) == cur + solid(s),
    decreases s.len(),
{
    if s.len() == 0 {
        lemma_joined_flush(cur);
    } else {
        let rest = s.drop_first();
        assert(s =~= seq![s[0]] + rest);
        lemma_solid_add(seq![s[0]], rest);
        lemma_solid_one(s[0]);
        if is_whitespace(s[0]) {
            lemma_split_keeps_text(rest, Seq::empty());
            lemma_joined_add(flush(cur), split(rest, Seq::empty()));
            lemma_joined_flush(cur);
        } else {
            lemma_split_keeps_text(rest, cur.push(s[0]));
        }
    }
}

/// The packed lines, one after the other and without their spaces, are the
/// words one after the other: packing loses no character of a word, adds
/// none, and keeps their order.
proof fn lemma_pack_keeps_text(words: Seq<Seq<char>>, width: nat, cur: Seq<char>)
    requires
        forall|j: int| 0 <= j < words.len() ==> no_whitespace(#[trigger] words[j]),
    ensures
        solid(joined(pack(words, width, cur))) == solid(cur) + joined(words),
    decreases words.len(),
{
    if words.len() == 0 {
        lemma_joined_flush(cur);
    } else {
        let word = words[0];
        let rest = words.drop_first();
        lemma_solid_word(word);
        if word.len() > width {
            let chunks = full_chunks(word, width);
            let left = last_chunk(word, width);
            lemma_pack_keeps_text(rest, width, left);
            lemma_joined_add(flush(cur) + chunks, pack(rest, width, left));
            lemma_joined_add(flush(cur), chunks);
            lemma_joined_flush(cur);
            lemma_chunks_join(word, width);
            lemma_solid_add(cur + joined(chunks), joined(pack(rest, width, left)));
            lemma_solid_add(cur, joined(chunks));
            lemma_solid_add(joined(chunks), left);
        } else if cur.len() == 0 {
            lemma_pack_keeps_text(rest, width, word);
        } else if cur.len() + 1 + word.len() > width {
            lemma_pack_keeps_text(rest, width, word);
            lemma_joined_add(seq![cur], pack(rest, width, word));
            lemma_joined_flush(cur);
            lemma_solid_add(cur, joined(pack(rest, width, word)));
        } else {
            lemma_pack_keeps_text(rest, width, cur + seq![' '] + word);
            lemma_solid_add(cur + seq![' '], word);
            lemma_solid_add(cur, seq![' ']);
            lemma_solid_one(' ');
        }
    }
}

/// Wrapping keeps the text: the characters of the packed lines that are
/// not white space are those of the text, in the same order.
pub proof fn lemma_wrap_keeps_text(text: Seq<char>, width: nat)
    ensures
        solid(joined(pack(words(text), width, Seq::empty()))) == solid(text),
{
    let all = words(text);
    lemma_words_are_solid(text);
    lemma_pack_keeps_text(all, width, Seq::empty());
    lemma_split_keeps_text(text, Seq::empty());
}

/// The words of a text, put together again with one space between each
/// two of them.
pub open spec fn spaced(words: Seq<Seq<char>>) -> Seq<char>
    decreases words.len(),
{
    if words.len() == 0 {
        Seq::empty()
    } else if words.len() == 1 {
        words[0]
    } else {
        spaced(words.drop_last()) + seq![' '] + words.last()
    }
}

/// Reading words across white space: what is read up to a white space
/// character and what is read behind it are read apart.
proof fn lemma_split_at_whitespace(a: Seq<char>, c: char, b: Seq<char>, cur: Seq<char>)
    requires
        is_whitespace(c),
    ensures
        split(a + seq![c] + b, cur) == split(a, cur) + split(b, Seq::empty()),
    decreases a.len(),
{
    let s = a + seq![c] + b;
    if a.len() == 0 {
        assert(s.drop_first() =~= b);
        assert(split(a, cur) + split(b, Seq::empty()) =~= flush(cur) + split(b, Seq::empty()));
    } else {
        assert(s.drop_first() =~= a.drop_first() + seq![c] + b);
        if is_whitespace(a[0]) {
            lemma_split_at_whitespace(a.drop_first(), c, b, Seq::empty());
            assert(split(s, cur) =~= split(a, cur) + split(b, Seq::empty()));
        } else {
            lemma_split_at_whitespace(a.drop_first(), c, b, cur.push(a[0]));
        }
    }
}

/// A run of characters without white space is read as the end of the word
/// that is being read.
proof fn lemma_split_word(word: Seq<char>, cur: Seq<char>)
    requires
        no_whitespace(word),
    ensures
        split(word, cur) == flush(cur + word),
    decreases word.len(),
{
    if word.len() == 0 {
        assert(cur + word =~= cur);
    } else {
        assert(cur.push(word[0]) + word.drop_first() =~= cur + word);
        lemma_split_word(word.drop_first(), cur.push(word[0]));
    }
}

/// A text without white space is one word, and the words of a text with a
/// white space character in it are those before and those behind that
/// character.
pub proof fn lemma_words_compose(a: Seq<char>, c: char, b: Seq<char>)
    ensures
        no_whitespace(a) && a.len() > 0 ==> words(a) == seq![a],
        is_whitespace(c) ==> words(a + seq![c] + b) == words(a) + words(b),
{
    if no_whitespace(a) {
        lemma_split_word(a, Seq::empty());
        assert(Seq::<char>::empty() + a =~= a);
    }
    if is_whitespace(c) {
        lemma_split_at_whitespace(a, c, b, Seq::empty());
    }
}

/// Words that fit on the line that is being built, with a space before
/// each, all go onto that line.
proof fn lemma_pack_onto_line(words: Seq<Seq<char>>, width: nat, cur: Seq<char>)
    requires
        cur.len() > 0,
        forall|j: int| 0 <= j < words.len() ==> (#[trigger] words[j]).len() > 0,
        spaced(seq![cur] + words).len() <= width,
    ensures
        pack(words, width, cur) == seq![spaced(seq![cur] + words)],
    decreases words.len(),
{
    let all = seq![cur] + words;
    if words.len() == 0 {
        assert(all =~= seq![cur]);
    } else {
        let word = words[0];
        let rest = words.drop_first();
        let next = cur + seq![' '] + word;
        lemma_spaced_front(cur, words);
        lemma_spaced_len(seq![next] + rest);
        assert forall|j: int| 0 <= j < rest.len() implies (#[trigger] rest[j]).len() > 0 by {
            assert(rest[j] == words[j + 1]);
        }
        lemma_pack_onto_line(rest, width, next);
    }
}

/// Putting the first two of the words together with a space between them
/// changes nothing of the spaced text.
proof fn lemma_spaced_front(cur: Seq<char>, words: Seq<Seq<char>>)
    requires
        words.len() > 0,
    ensures
        spaced(seq![cur] + words) == spaced(
            seq![cur + seq![' '] + words[0]] + words.drop_first(),
        ),
    decreases words.len(),
{
    let all = seq![cur] + words;
    let merged = seq![cur + seq![' '] + words[0]] + words.drop_first();
    assert(spaced(all) == spaced(all.drop_last()) + seq![' '] + all.last());
    assert(all.last() == words.last());
    if words.len() == 1 {
        assert(all.drop_last() =~= seq![cur]);
        assert(spaced(seq![cur]) == cur);
        assert(merged =~= seq![cur + seq![' '] + words[0]]);
        assert(spaced(merged) == merged[0]);
    } else {
        let front = words.drop_last();
        lemma_spaced_front(cur, front);
        assert(all.drop_last() =~= seq![cur] + front);
        assert(merged.drop_last() =~= seq![cur + seq![' '] + front[0]] + front.drop_first());
        assert(merged.last() == words.last());
        assert(spaced(merged) == spaced(merged.drop_last()) + seq![' '] + merged.last());
    }
}

/// The spaced text is at least as long as its first word.
proof fn lemma_spaced_len(words: Seq<Seq<char>>)
    requires
        words.len() > 0,
    ensures
        spaced(words).len() >= words[0].len(),
    decreases words.len(),
{
    if words.len() > 1 {
        lemma_spaced_len(words.drop_last());
    }
}

/// A text that is made of words with one space between each two of them,
/// or is empty, and that fits into the viewport behind the prefix, is laid
/// out as one line: the prefix and the text.
pub proof fn lemma_short_text_is_one_line(item: ItemView, available_width: nat, text: Seq<char>)
    requires
        spaced(words(text)) == text,
        item.prefix().len() + text.len() <= available_width,
    ensures
        layout(item, available_width, text) == seq![(item.prefix() + text, true)],
{
    let all = words(text);
    let width = (available_width - item.prefix().len()) as nat;
    if text.len() > 0 {
        lemma_words_are_solid(text);
        let rest = all.drop_first();
        assert(seq![all[0]] + rest =~= all);
        assert forall|j: int| 0 <= j < rest.len() implies (#[trigger] rest[j]).len() > 0 by {
            assert(rest[j] == all[j + 1]);
        }
        lemma_spaced_len(all);
        lemma_pack_onto_line(rest, width, all[0]);
    } else {
        assert(item.prefix() + text =~= item.prefix());
    }
    assert(layout(item, available_width, text) =~= seq![(item.prefix() + text, true)]);
}

/// The solid characters of a text are not more than its characters.
proof fn lemma_solid_len(s: Seq<char>)
    ensures
        solid(s).len() <= s.len(),
    decreases s.len(),
{
    if s.len() > 0 {
        lemma_solid_len(s.drop_last());
    }
}

/// A text with more characters that are not white space than fit behind
/// the prefix is laid out in more than one line.
pub proof fn lemma_long_text_wraps(item: ItemView, available_width: nat, text: Seq<char>)
    requires
        available_width > item.prefix().len(),
        solid(text).len() > available_width - item.prefix().len(),
    ensures
        layout(item, available_width, text).len() > 1,
{
    let width = (available_width - item.prefix().len()) as nat;
    let lines = pack(words(text), width, Seq::empty());
    lemma_wrap_keeps_text(text, width);
    lemma_lines_fit(words(text), width);
    if lines.len() == 0 {
        assert(joined(lines) =~= Seq::<char>::empty());
    } else if lines.len() == 1 {
        assert(lines =~= seq![lines[0]]);
        lemma_joined_flush(lines[0]);
        lemma_solid_len(lines[0]);
    }
}

} // verus!
