//! The file format of a todo list: a header line with the date, an empty
//! line, and one line per item.
//!
//! Reading is lenient with items: a line that is no item is passed over.
//! Only a file without a header line, or with a date that cannot be read,
//! is refused.

use crate::chars::{
    append_chars, copy_range, is_whitespace, is_whitespace_char, rows, to_chars, to_string,
};
use crate::date::Date;
use crate::model::{item_views, ItemView, ListView, TodoItem, TodoList};
use vstd::prelude::*;

verus! {

/// Why a text is no todo list.
#[derive(Clone, Copy, Debug, PartialEq, Eq, Structural)]
pub enum InvalidFormat {
    /// The text has no line at all.
    Empty,
    /// The first line does not begin with the header mark.
    Header,
    /// What follows the header mark is no date.
    Date,
}

/// What every header line begins with.
pub open spec fn header_mark() -> Seq<char> {
    seq!['#', ' ', 'T', 'O', 'D', 'O', ' ']
}

/// The header line of a list of the given day.
pub open spec fn header(date: Date) -> Seq<char> {
    header_mark() + date.text()
}

/// The lines of `items`, each ended by a line feed.
pub open spec fn item_lines(items: Seq<ItemView>) -> Seq<char>
    decreases items.len(),
{
    if items.len() == 0 {
        Seq::empty()
    } else {
        item_lines(items.drop_last()) + items.last().line() + seq!['\n']
    }
}

/// The text that a list is saved as: header line, empty line, item lines.
pub open spec fn encode(list: ListView) -> Seq<char> {
    header(list.date) + seq!['\n', '\n'] + item_lines(list.items)
}

/// The name of the file that a list of the given day is saved in.
pub open spec fn file_name(date: Date) -> Seq<char> {
    seq!['T', 'O', 'D', 'O', '-'] + date.text() + seq!['.', 'm', 'd']
}

/// A line without the carriage return that may end it.
pub open spec fn strip_cr(line: Seq<char>) -> Seq<char> {
    if line.len() > 0 && line.last() == '\r' {
        line.drop_last()
    } else {
        line
    }
}

/// The lines of `s` read from left to right, where `cur` holds the
/// characters of the line that is being read.
pub open spec fn lines_from(s: Seq<char>, cur: Seq<char>) -> Seq<Seq<char>>
    decreases s.len(),
{
    if s.len() == 0 {
        if cur.len() > 0 {
            seq![cur]
        } else {
            Seq::empty()
        }
    } else if s[0] == '\n' {
        seq![strip_cr(cur)] + lines_from(s.drop_first(), Seq::empty())
    } else {
        lines_from(s.drop_first(), cur.push(s[0]))
    }
}

/// The lines of `s`. A line ends with a line feed, which is no part of it,
/// nor is a carriage return before the line feed. What follows the last
/// line feed is a line if it is not empty.
pub open spec fn lines(s: Seq<char>) -> Seq<Seq<char>> {
    lines_from(s, Seq::empty())
}

/// Number of white space characters that `line` begins with.
pub open spec fn leading_whitespace(line: Seq<char>) -> nat
    decreases line.len(),
{
    if line.len() > 0 && is_whitespace(line[0]) {
        1 + leading_whitespace(line.drop_first())
    } else {
        0
    }
}

/// The mark of a completed item.
pub open spec fn checked_box() -> Seq<char> {
    seq!['[', 'x', ']', ' ']
}

/// The mark of an item that is not completed.
pub open spec fn empty_box() -> Seq<char> {
    seq!['[', ' ', ']', ' ']
}

/// The item that `line` stands for, if it stands for one.
///
/// An item line is white space, a bullet and the content. Half the number
/// of white space characters, rounded down, is the depth. Content that
/// begins with a checkbox gives the completion flag and the text behind the
/// checkbox; any other content is the text of an item that is not completed.
pub open spec fn parse_line(line: Seq<char>) -> Option<ItemView> {
    let n = leading_whitespace(line);
    let body = line.skip(n as int);
    if seq!['*', ' '].is_prefix_of(body) {
        let content = body.skip(2);
        if checked_box().is_prefix_of(content) {
            Some(ItemView { text: content.skip(4), completed: true, indent_level: n / 2 })
        } else if empty_box().is_prefix_of(content) {
            Some(ItemView { text: content.skip(4), completed: false, indent_level: n / 2 })
        } else {
            Some(ItemView { text: content, completed: false, indent_level: n / 2 })
        }
    } else {
        None
    }
}

/// The items that `lines` stand for, in order; lines that stand for no item
/// are passed over.
pub open spec fn parse_lines(lines: Seq<Seq<char>>) -> Seq<ItemView>
    decreases lines.len(),
{
    if lines.len() == 0 {
        Seq::empty()
    } else {
        match parse_line(lines.last()) {
            Some(item) => parse_lines(lines.drop_last()).push(item),
            None => parse_lines(lines.drop_last()),
        }
    }
}

/// The lines behind the header line and the line that follows it.
pub open spec fn item_part(lines: Seq<Seq<char>>) -> Seq<Seq<char>> {
    if lines.len() > 2 {
        lines.skip(2)
    } else {
        Seq::empty()
    }
}

/// What stands behind the header mark on the first line.
pub open spec fn header_date_text(lines: Seq<Seq<char>>) -> Result<Seq<char>, InvalidFormat> {
    if lines.len() == 0 {
        Err(InvalidFormat::Empty)
    } else if !header_mark().is_prefix_of(lines[0]) {
        Err(InvalidFormat::Header)
    } else {
        Ok(lines[0].skip(7))
    }
}

/// The list that `lines` stand for, once the date of their header line has
/// been read as `date`.
pub open spec fn decode_lines(date: Option<Date>, lines: Seq<Seq<char>>) -> Result<
    ListView,
    InvalidFormat,
> {
    match date {
        Some(date) => Ok(ListView { date, items: parse_lines(item_part(lines)) }),
        None => Err(InvalidFormat::Date),
    }
}

/// The list that the text `content` stands for.
pub open spec fn decode(content: Seq<char>) -> Result<ListView, InvalidFormat> {
    match header_date_text(lines(content)) {
        Ok(text) => decode_lines(Date::of_text(text), lines(content)),
        Err(e) => Err(e),
    }
}

/// What was read, as the view of a list.
pub open spec fn decoded_view(r: Result<TodoList, InvalidFormat>) -> Result<
    ListView,
    InvalidFormat,
> {
    match r {
        Ok(list) => Ok(list@),
        Err(e) => Err(e),
    }
}

/// An item that was read, as the view of an item.
pub open spec fn parsed_view(r: Option<TodoItem>) -> Option<ItemView> {
    match r {
        Some(item) => Some(item@),
        None => None,
    }
}

/// Text that was read, as a sequence of characters.
pub open spec fn text_view(r: Result<String, InvalidFormat>) -> Result<Seq<char>, InvalidFormat> {
    match r {
        Ok(text) => Ok(text@),
        Err(e) => Err(e),
    }
}

/// The lines of `text`.
pub fn split_lines(text: &Vec<char>) -> (out: Vec<Vec<char>>)
    ensures
        rows(out@) == lines(text@),
{
    let mut out: Vec<Vec<char>> = Vec::new();
    let mut cur: Vec<char> = Vec::new();
    let mut i: usize = 0;
    assert(text@.skip(0) =~= text@);
    while i < text.len()
        invariant
            i <= text.len(),
            rows(out@) + lines_from(text@.skip(i as int), cur@) == lines(text@),
        decreases text.len() - i,
    {
        let c = text[i];
        assert(text@.skip(i as int).drop_first() =~= text@.skip(i + 1));
        if c == '\n' {
            let n = cur.len();
            if n > 0 && cur[n - 1] == '\r' {
                let _ = cur.pop();
            }
            out.push(cur);
            cur = Vec::new();
        } else {
            cur.push(c);
        }
        i += 1;
    }
    if cur.len() > 0 {
        out.push(cur);
    }
    out
}

/// Number of white space characters that `line` begins with.
pub fn count_leading_whitespace(line: &Vec<char>) -> (n: usize)
    ensures
        n == leading_whitespace(line@),
        n <= line.len(),
{
    let mut n: usize = 0;
    assert(line@.skip(0) =~= line@);
    while n < line.len() && is_whitespace_char(line[n])
        invariant
            n <= line.len(),
            leading_whitespace(line@) == n + leading_whitespace(line@.skip(n as int)),
        decreases line.len() - n,
    {
        assert(line@.skip(n as int).drop_first() =~= line@.skip(n + 1));
        n += 1;
    }
    n
}

/// Whether `line` holds, from position `at`, a checkbox with `inner`
/// between its brackets and a space behind it.
fn has_box_at(line: &Vec<char>, at: usize, inner: char) -> (b: bool)
    requires
        at <= line.len(),
    ensures
        b == seq!['[', inner, ']', ' '].is_prefix_of(line@.skip(at as int)),
{
    let b = line.len() - at >= 4 && line[at] == '[' && line[at + 1] == inner && line[at + 2] == ']'
        && line[at + 3] == ' ';
    proof {
        let tail = line@.skip(at as int);
        assert(b == (tail.len() >= 4 && seq!['[', inner, ']', ' '] =~= tail.subrange(0, 4)));
    }
    b
}

/// Reads one line as an item, if it is one.
pub fn parse_item_line(line: &Vec<char>) -> (r: Option<TodoItem>)
    ensures
        parsed_view(r) == parse_line(line@),
{
    let n = count_leading_whitespace(line);
    let is_item = line.len() - n >= 2 && line[n] == '*' && line[n + 1] == ' ';
    proof {
        let body = line@.skip(n as int);
        assert(is_item == (body.len() >= 2 && seq!['*', ' '] =~= body.subrange(0, 2)));
    }
    if !is_item {
        return None;
    }
    let start = n + 2;
    let (completed, from) = if has_box_at(line, start, 'x') {
        (true, start + 4)
    } else if has_box_at(line, start, ' ') {
        (false, start + 4)
    } else {
        (false, start)
    };
    let text = to_string(&copy_range(line, from, line.len()));
    Some(TodoItem::new(text, completed, n / 2))
}

impl InvalidFormat {
    /// What is wrong, in words.
    pub fn message(&self) -> (text: String)
        ensures
            text@ == match *self {
                InvalidFormat::Empty => "Empty todo file"@,
                InvalidFormat::Header => "Invalid header format"@,
                InvalidFormat::Date => "Invalid date format in header"@,
            },
    {
        match self {
            InvalidFormat::Empty => "Empty todo file".to_owned(),
            InvalidFormat::Header => "Invalid header format".to_owned(),
            InvalidFormat::Date => "Invalid date format in header".to_owned(),
        }
    }
}

/// The text behind the header mark on the first of `lines`.
pub fn read_header(lines: &Vec<Vec<char>>) -> (r: Result<String, InvalidFormat>)
    ensures
        text_view(r) == header_date_text(rows(lines@)),
{
    if lines.len() == 0 {
        return Err(InvalidFormat::Empty);
    }
    let first = &lines[0];
    let marked = first.len() >= 7 && first[0] == '#' && first[1] == ' ' && first[2] == 'T'
        && first[3] == 'O' && first[4] == 'D' && first[5] == 'O' && first[6] == ' ';
    assert(marked == (first.len() >= 7 && header_mark() =~= first@.subrange(0, 7)));
    if !marked {
        return Err(InvalidFormat::Header);
    }
    Ok(to_string(&copy_range(first, 7, first.len())))
}

impl TodoList {
    /// The text that the list is saved as.
    pub fn to_markdown(&self) -> (content: String)
        ensures
            content@ == encode(self@),
    {
        let mut out: Vec<char> = Vec::new();
        out.push('#');
        out.push(' ');
        out.push('T');
        out.push('O');
        out.push('D');
        out.push('O');
        out.push(' ');
        let date = to_chars(self.date.to_text().as_str());
        append_chars(&mut out, &date);
        out.push('\n');
        out.push('\n');
        let ghost head = header(self.date) + seq!['\n', '\n'];
        let mut i: usize = 0;
        while i < self.items.len()
            invariant
                i <= self.items.len(),
                out@ == head + item_lines(item_views(self.items@).take(i as int)),
            decreases self.items.len() - i,
        {
            let line = self.items[i].line_chars();
            assert(item_views(self.items@).take(i + 1).drop_last() =~= item_views(
                self.items@,
            ).take(i as int));
            append_chars(&mut out, &line);
            out.push('\n');
            i += 1;
        }
        assert(item_views(self.items@).take(i as int) =~= item_views(self.items@));
        to_string(&out)
    }

    /// The name of the file that the list is saved in.
    pub fn filename(&self) -> (name: String)
        ensures
            name@ == file_name(self.date),
    {
        let mut out: Vec<char> = Vec::new();
        out.push('T');
        out.push('O');
        out.push('D');
        out.push('O');
        out.push('-');
        let date = to_chars(self.date.to_text().as_str());
        append_chars(&mut out, &date);
        out.push('.');
        out.push('m');
        out.push('d');
        to_string(&out)
    }

    /// The list that `lines` stand for, once the date of their header line
    /// has been read as `date`: no list where no date was read.
    pub fn from_lines(date: Option<Date>, lines: &Vec<Vec<char>>) -> (r: Result<
        TodoList,
        InvalidFormat,
    >)
        ensures
            decoded_view(r) == decode_lines(date, rows(lines@)),
    {
        let date = match date {
            Some(date) => date,
            None => {
                return Err(InvalidFormat::Date);
            },
        };
        let mut list = TodoList::new(date);
        let ghost part = item_part(rows(lines@));
        if lines.len() <= 2 {
            return Ok(list);
        }
        let mut i: usize = 2;
        while i < lines.len()
            invariant
                2 <= i <= lines.len(),
                part == rows(lines@).skip(2),
                list.date == date,
                item_views(list.items@) == parse_lines(part.take(i - 2)),
            decreases lines.len() - i,
        {
            assert(part.take(i - 1).drop_last() =~= part.take(i - 2));
            if let Some(item) = parse_item_line(&lines[i]) {
                list.items.push(item);
            }
            i += 1;
        }
        assert(part.take(i - 2) =~= part);
        Ok(list)
    }

    /// Reads a list from the text that it was saved as.
    pub fn from_markdown(content: &str) -> (r: Result<TodoList, InvalidFormat>)
        ensures
            decoded_view(r) == decode(content@),
    {
        let lines = split_lines(&to_chars(content));
        match read_header(&lines) {
            Ok(text) => TodoList::from_lines(Date::parse(text.as_str()), &lines),
            Err(e) => Err(e),
        }
    }
}

} // verus!
