//! What holds of the file format: a list is read back from the text that
//! it is saved as, an item from its line, and a text without a header line
//! is refused.

use crate::chars::spaces;
use crate::date::{decimal, year_text, Date};
use crate::markdown::{
    decode, encode, header, header_date_text, header_mark, item_lines, item_part,
    leading_whitespace, lines, lines_from, parse_line, parse_lines, strip_cr, InvalidFormat,
};
use crate::model::{bullet, ItemView, ListView};
use vstd::prelude::*;

verus! {

/// No line feed stands in `text`.
pub open spec fn no_line_feed(text: Seq<char>) -> bool {
    forall|i: int| 0 <= i < text.len() ==> text[i] != '\n'
}

/// `text` can stand at the end of a line and be read back: it holds no
/// line feed and does not end with a carriage return.
pub open spec fn fits_one_line(text: Seq<char>) -> bool {
    no_line_feed(text) && (text.len() == 0 || text.last() != '\r')
}

/// The lines that `items` are written as, one for each.
pub open spec fn lines_of(items: Seq<ItemView>) -> Seq<Seq<char>> {
    Seq::new(items.len(), |i: int| items[i].line())
}

/// Reading stops a line at its line feed and goes on behind it.
proof fn lemma_lines_from_line(a: Seq<char>, rest: Seq<char>, cur: Seq<char>)
    requires
        no_line_feed(a),
    ensures
        lines_from(a + seq!['\n'] + rest, cur) == seq![strip_cr(cur + a)] + lines_from(
            rest,
            Seq::empty(),
        ),
    decreases a.len(),
{
    let s = a + seq!['\n'] + rest;
    if a.len() == 0 {
        assert(s.drop_first() =~= rest);
    } else {
        assert(s.drop_first() =~= a.drop_first() + seq!['\n'] + rest);
        assert(cur.push(a[0]) + a.drop_first() =~= cur + a);
        lemma_lines_from_line(a.drop_first(), rest, cur.push(a[0]));
    }
}

/// The lines of a text that begins with a line and its line feed are that
/// line, without the carriage return that may end it, and the lines of
/// what follows.
pub proof fn lemma_first_line(line: Seq<char>, rest: Seq<char>)
    requires
        no_line_feed(line),
    ensures
        lines(line + seq!['\n'] + rest) == seq![strip_cr(line)] + lines(rest),
{
    lemma_lines_from_line(line, rest, Seq::empty());
    assert(Seq::<char>::empty() + line =~= line);
}

/// The written lines of a list begin with those of its first item.
proof fn lemma_item_lines_front(items: Seq<ItemView>)
    requires
        items.len() > 0,
    ensures
        item_lines(items) == items[0].line() + seq!['\n'] + item_lines(items.drop_first()),
    decreases items.len(),
{
    if items.len() == 1 {
        assert(items.drop_last() =~= Seq::<ItemView>::empty());
        assert(items.drop_first() =~= Seq::<ItemView>::empty());
    } else {
        let front = items.drop_last();
        lemma_item_lines_front(front);
        assert(front.drop_first() =~= items.drop_first().drop_last());
    }
}

/// Leading spaces count as white space, one each.
proof fn lemma_leading_spaces(n: nat, rest: Seq<char>)
    ensures
        leading_whitespace(spaces(n) + rest) == n + leading_whitespace(rest),
    decreases n,
{
    if n > 0 {
        assert((spaces(n) + rest).drop_first() =~= spaces((n - 1) as nat) + rest);
        lemma_leading_spaces((n - 1) as nat, rest);
    } else {
        assert(spaces(n) + rest =~= rest);
    }
}

/// The line that an item is written as holds no line feed and is not
/// changed by the removal of a carriage return at its end, where that is so
/// of its text.
proof fn lemma_line_fits(item: ItemView)
    requires
        fits_one_line(item.text),
    ensures
        no_line_feed(item.line()),
        strip_cr(item.line()) == item.line(),
{
    let line = item.line();
    let p = item.prefix();
    assert forall|i: int| 0 <= i < line.len() implies line[i] != '\n' by {
        if i >= p.len() {
            assert(line[i] == item.text[i - p.len()]);
        }
    }
    assert(line.last() == if item.text.len() > 0 {
        item.text.last()
    } else {
        ' '
    });
}

/// The lines of the written items are the lines that the items are written
/// as.
proof fn lemma_lines_of_item_lines(items: Seq<ItemView>)
    requires
        forall|i: int| 0 <= i < items.len() ==> fits_one_line(#[trigger] items[i].text),
    ensures
        lines(item_lines(items)) == lines_of(items),
    decreases items.len(),
{
    if items.len() > 0 {
        let rest = items.drop_first();
        lemma_item_lines_front(items);
        lemma_line_fits(items[0]);
        lemma_lines_from_line(items[0].line(), item_lines(rest), Seq::empty());
        assert forall|i: int| 0 <= i < rest.len() implies fits_one_line(
            #[trigger] rest[i].text,
        ) by {
            assert(rest[i] == items[i + 1]);
        }
        lemma_lines_of_item_lines(rest);
    }
}

/// An item is read back from the line that it is written as: text,
/// completion flag and depth are those that were written.
pub proof fn lemma_line_round_trip(item: ItemView)
    ensures
        parse_line(item.line()) == Some(item),
{
    let line = item.line();
    let k = item.indent_level;
    let body = bullet(item.completed) + item.text;
    assert(line =~= spaces(2 * k) + body);
    lemma_leading_spaces(2 * k, body);
    assert(leading_whitespace(line) == 2 * k);
    assert(line.skip(2 * k as int) =~= body);
    assert(body.skip(2).skip(4) =~= item.text);
}

/// The items are read back from the lines that they are written as.
proof fn lemma_parse_lines_of(items: Seq<ItemView>)
    ensures
        parse_lines(lines_of(items)) == items,
    decreases items.len(),
{
    if items.len() > 0 {
        assert(lines_of(items).drop_last() =~= lines_of(items.drop_last()));
        lemma_line_round_trip(items.last());
        lemma_parse_lines_of(items.drop_last());
    }
}

/// The digits of a number are no line feeds and no carriage returns.
proof fn lemma_decimal_plain(n: nat, i: int)
    requires
        0 <= i < decimal(n).len(),
    ensures
        decimal(n)[i] != '\n',
        decimal(n)[i] != '\r',
    decreases n,
{
    if n >= 10 {
        if i < decimal(n / 10).len() {
            lemma_decimal_plain(n / 10, i);
        }
    }
}

/// The text of a calendar date holds no line feed and no carriage return.
proof fn lemma_date_text_plain(date: Date)
    requires
        date.wf(),
    ensures
        no_line_feed(date.text()),
        date.text().len() > 0,
        date.text().last() != '\r',
{
    let y = date.spec_year();
    let year = year_text(y);
    let text = date.text();
    assert forall|i: int| 0 <= i < year.len() implies year[i] != '\n' by {
        if 0 <= y <= 9999 {
            let digits = decimal(y as nat);
            let pad = year.len() - digits.len();
            if i >= pad {
                lemma_decimal_plain(y as nat, i - pad);
            }
        } else if y > 9999 {
            if i >= 1 {
                lemma_decimal_plain(y as nat, i - 1);
            }
        } else {
            let digits = decimal((-y) as nat);
            let pad = year.len() - digits.len();
            if i >= pad {
                lemma_decimal_plain((-y) as nat, i - pad);
            }
        }
    }
    assert forall|i: int| 0 <= i < text.len() implies text[i] != '\n' by {
        if i < year.len() {
            assert(text[i] == year[i]);
        }
    }
}

/// A list is read back from the text that it is saved as, where the text
/// of every item can stand on one line. The date is read back because
/// every valid date is read back from its own text.
pub proof fn lemma_round_trip(list: ListView)
    requires
        list.date.wf(),
        forall|i: int| 0 <= i < list.items.len() ==> fits_one_line(#[trigger] list.items[i].text),
    ensures
        decode(encode(list)) == Ok::<ListView, InvalidFormat>(list),
{
    let head = header(list.date);
    let body = item_lines(list.items);
    lemma_date_text_plain(list.date);
    assert forall|i: int| 0 <= i < head.len() implies head[i] != '\n' by {
        if i >= 7 {
            assert(head[i] == list.date.text()[i - 7]);
        }
    }
    // The text is the header line, an empty line and the lines of the items.
    assert(encode(list) =~= head + seq!['\n'] + (seq!['\n'] + body));
    lemma_lines_from_line(head, seq!['\n'] + body, Seq::empty());
    lemma_lines_from_line(Seq::empty(), body, Seq::empty());
    lemma_lines_of_item_lines(list.items);
    assert(item_part(lines(encode(list))) =~= lines_of(list.items));
    // The header line gives the date back, and the other lines the items.
    assert(head.skip(7) =~= list.date.text());
    Date::lemma_text_round_trip(list.date);
    lemma_parse_lines_of(list.items);
}

/// A text whose first line does not begin with the header mark is refused,
/// and so is a text without any line.
pub proof fn lemma_header_required(content: Seq<char>)
    requires
        lines(content).len() == 0 || !header_mark().is_prefix_of(lines(content)[0]),
    ensures
        decode(content) is Err,
        lines(content).len() == 0 ==> decode(content) == Err::<ListView, InvalidFormat>(
            InvalidFormat::Empty,
        ),
        lines(content).len() > 0 ==> decode(content) == Err::<ListView, InvalidFormat>(
            InvalidFormat::Header,
        ),
{
}

/// No item is refused: a text with a header line that holds a date is a
/// list, whatever its other lines hold.
pub proof fn lemma_items_never_fail(content: Seq<char>)
    requires
        header_date_text(lines(content)) matches Ok(text) && Date::of_text(text) is Some,
    ensures
        decode(content) is Ok,
{
}

} // verus!
