//! The item model: one todo entry, and the dated, ordered list of them.

use crate::chars::{append_chars, push_spaces, spaces, to_chars, to_string};
use crate::date::Date;
use vstd::prelude::*;

verus! {

/// What a todo item is, in specifications.
#[verifier::ext_equal]
pub struct ItemView {
    pub text: Seq<char>,
    pub completed: bool,
    pub indent_level: nat,
}

/// Bullet and checkbox of an item, with the space that follows them.
pub open spec fn bullet(completed: bool) -> Seq<char> {
    if completed {
        seq!['*', ' ', '[', 'x', ']', ' ']
    } else {
        seq!['*', ' ', '[', ' ', ']', ' ']
    }
}

impl ItemView {
    /// What stands before the text of an item: two spaces per level, then
    /// bullet and checkbox.
    pub open spec fn prefix(self) -> Seq<char> {
        spaces(2 * self.indent_level) + bullet(self.completed)
    }

    /// The one line that an item is written as.
    pub open spec fn line(self) -> Seq<char> {
        self.prefix() + self.text
    }
}

/// What a todo list is, in specifications.
#[verifier::ext_equal]
pub struct ListView {
    pub date: Date,
    pub items: Seq<ItemView>,
}

/// One todo entry. It has no identity beyond its place in the list; its
/// depth in the outline is `indent_level`.
#[derive(Debug, Clone)]
pub struct TodoItem {
    pub text: String,
    pub completed: bool,
    pub indent_level: usize,
}

impl View for TodoItem {
    type V = ItemView;

    open spec fn view(&self) -> ItemView {
        ItemView {
            text: self.text@,
            completed: self.completed,
            indent_level: self.indent_level as nat,
        }
    }
}

/// The views of a sequence of items, in the same order.
pub open spec fn item_views(items: Seq<TodoItem>) -> Seq<ItemView> {
    Seq::new(items.len(), |i: int| items[i]@)
}

impl TodoItem {
    /// An item with the given text, completion flag and depth.
    pub fn new(text: String, completed: bool, indent_level: usize) -> (item: TodoItem)
        ensures
            item.text == text,
            item.completed == completed,
            item.indent_level == indent_level,
    {
        TodoItem { text, completed, indent_level }
    }

    /// The characters that stand before the text of the item.
    pub fn prefix_chars(&self) -> (p: Vec<char>)
        ensures
            p@ == self@.prefix(),
    {
        let mut p: Vec<char> = Vec::new();
        push_spaces(&mut p, self.indent_level);
        push_spaces(&mut p, self.indent_level);
        p.push('*');
        p.push(' ');
        p.push('[');
        p.push(if self.completed {
            'x'
        } else {
            ' '
        });
        p.push(']');
        p.push(' ');
        p
    }

    /// The characters of the line that the item is written as.
    pub fn line_chars(&self) -> (line: Vec<char>)
        ensures
            line@ == self@.line(),
    {
        let mut line = self.prefix_chars();
        let text = to_chars(self.text.as_str());
        append_chars(&mut line, &text);
        line
    }

    /// The line that the item is written as: indentation, bullet, checkbox
    /// and text.
    pub fn to_markdown_line(&self) -> (line: String)
        ensures
            line@ == self@.line(),
    {
        to_string(&self.line_chars())
    }
}

/// The items of one day, in display order. The order also defines the
/// outline: an item belongs under the nearest item before it that has a
/// smaller depth.
#[derive(Debug)]
pub struct TodoList {
    pub date: Date,
    pub items: Vec<TodoItem>,
}

impl View for TodoList {
    type V = ListView;

    open spec fn view(&self) -> ListView {
        ListView { date: self.date, items: item_views(self.items@) }
    }
}

impl TodoList {
    /// The empty list of the given day.
    pub fn new(date: Date) -> (list: TodoList)
        ensures
            list.date == date,
            list.items@.len() == 0,
            list@ == (ListView { date, items: Seq::empty() }),
    {
        TodoList { date, items: Vec::new() }
    }
}

} // verus!
