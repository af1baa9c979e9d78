//! The editing operations that both front-ends call.
//!
//! Each operation takes the position of an item and returns whether there
//! is an item at that position. A position that names no item changes
//! nothing. The caller saves the list after an operation that found its
//! item.

use crate::date::Date;
use crate::model::{ItemView, ListView, TodoItem, TodoList};
use vstd::prelude::*;

verus! {

/// `list` with the completion flag of item `index` flipped.
pub open spec fn toggled(list: ListView, index: int) -> ListView {
    if 0 <= index < list.items.len() {
        ListView {
            items: list.items.update(
                index,
                ItemView { completed: !list.items[index].completed, ..list.items[index] },
            ),
            ..list
        }
    } else {
        list
    }
}

/// `list` with `text` as the text of item `index`.
pub open spec fn with_text(list: ListView, index: int, text: Seq<char>) -> ListView {
    if 0 <= index < list.items.len() {
        ListView { items: list.items.update(index, ItemView { text, ..list.items[index] }), ..list }
    } else {
        list
    }
}

/// One level deeper, as far as the machine can count.
pub open spec fn deeper(level: nat) -> nat {
    if level < usize::MAX {
        level + 1
    } else {
        level
    }
}

/// One level less deep, and not less than none.
pub open spec fn shallower(level: nat) -> nat {
    if level > 0 {
        (level - 1) as nat
    } else {
        0
    }
}

/// `list` with item `index` one level deeper.
pub open spec fn indented(list: ListView, index: int) -> ListView {
    if 0 <= index < list.items.len() {
        ListView {
            items: list.items.update(
                index,
                ItemView {
                    indent_level: deeper(list.items[index].indent_level),
                    ..list.items[index]
                },
            ),
            ..list
        }
    } else {
        list
    }
}

/// `list` with item `index` one level less deep.
pub open spec fn outdented(list: ListView, index: int) -> ListView {
    if 0 <= index < list.items.len() {
        ListView {
            items: list.items.update(
                index,
                ItemView {
                    indent_level: shallower(list.items[index].indent_level),
                    ..list.items[index]
                },
            ),
            ..list
        }
    } else {
        list
    }
}

/// `list` without item `index`.
pub open spec fn removed(list: ListView, index: int) -> ListView {
    if 0 <= index < list.items.len() {
        ListView { items: list.items.remove(index), ..list }
    } else {
        list
    }
}

/// Where a new item goes that is asked for at `index`: there, or behind
/// the last item where `index` lies beyond it.
pub open spec fn insert_position(list: ListView, index: int) -> int {
    if index <= list.items.len() {
        index
    } else {
        list.items.len() as int
    }
}

/// The depth of a new item at position `at`: that of the item before it;
/// at the head of the list that of the item that stood there; none in an
/// empty list.
pub open spec fn inherited_indent(list: ListView, at: int) -> nat {
    if 0 < at <= list.items.len() {
        list.items[at - 1].indent_level
    } else if list.items.len() > 0 {
        list.items[0].indent_level
    } else {
        0
    }
}

/// The empty, open item that is put in at position `at`.
pub open spec fn placeholder(list: ListView, at: int) -> ItemView {
    ItemView { text: Seq::empty(), completed: false, indent_level: inherited_indent(list, at) }
}

/// `list` with a new, empty item asked for at `index`.
pub open spec fn with_new_item(list: ListView, index: int) -> ListView {
    let at = insert_position(list, index);
    ListView { items: list.items.insert(at, placeholder(list, at)), ..list }
}

/// Taking out the item that was just put in gives the list back.
pub proof fn lemma_remove_new_item(list: ListView, index: nat)
    ensures
        removed(with_new_item(list, index as int), insert_position(list, index as int)) == list,
{
}

/// The list that the editing operations work on.
#[derive(Debug)]
pub struct TodoApp {
    pub todo_list: TodoList,
}

impl View for TodoApp {
    type V = ListView;

    open spec fn view(&self) -> ListView {
        self.todo_list@
    }
}

impl TodoApp {
    /// Takes over `todo_list`.
    pub fn new(todo_list: TodoList) -> (app: TodoApp)
        ensures
            app.todo_list == todo_list,
    {
        TodoApp { todo_list }
    }

    /// Number of items.
    pub fn len(&self) -> (n: usize)
        ensures
            n == self@.items.len(),
    {
        self.todo_list.items.len()
    }

    /// Flips the completion flag of item `index`.
    pub fn toggle_item_completed(&mut self, index: usize) -> (found: bool)
        ensures
            found == (index < old(self)@.items.len()),
            final(self)@ == toggled(old(self)@, index as int),
    {
        if index < self.todo_list.items.len() {
            self.todo_list.items[index].completed = !self.todo_list.items[index].completed;
            true
        } else {
            false
        }
    }

    /// Gives item `index` the text `text`.
    pub fn update_item_text(&mut self, index: usize, text: String) -> (found: bool)
        ensures
            found == (index < old(self)@.items.len()),
            final(self)@ == with_text(old(self)@, index as int, text@),
    {
        if index < self.todo_list.items.len() {
            self.todo_list.items[index].text = text;
            true
        } else {
            false
        }
    }

    /// Moves item `index` one level up in the outline, unless it is at the
    /// top level.
    pub fn indent_item_left(&mut self, index: usize) -> (found: bool)
        ensures
            found == (index < old(self)@.items.len()),
            final(self)@ == outdented(old(self)@, index as int),
    {
        if index < self.todo_list.items.len() {
            if self.todo_list.items[index].indent_level > 0 {
                self.todo_list.items[index].indent_level = self.todo_list.items[index].indent_level
                    - 1;
            }
            true
        } else {
            false
        }
    }

    /// Moves item `index` one level down in the outline.
    pub fn indent_item_right(&mut self, index: usize) -> (found: bool)
        ensures
            found == (index < old(self)@.items.len()),
            final(self)@ == indented(old(self)@, index as int),
    {
        if index < self.todo_list.items.len() {
            if self.todo_list.items[index].indent_level < usize::MAX {
                self.todo_list.items[index].indent_level = self.todo_list.items[index].indent_level
                    + 1;
            }
            true
        } else {
            false
        }
    }

    /// Takes item `index` out of the list.
    pub fn delete_item(&mut self, index: usize) -> (found: bool)
        ensures
            found == (index < old(self)@.items.len()),
            final(self)@ == removed(old(self)@, index as int),
    {
        if index < self.todo_list.items.len() {
            let _ = self.todo_list.items.remove(index);
            true
        } else {
            false
        }
    }

    /// Puts a new, empty item in at `index`, or behind the last item where
    /// `index` lies beyond it, and returns its position. The new item takes
    /// its depth from the item before it.
    pub fn insert_new_item(&mut self, index: usize) -> (at: usize)
        ensures
            at == insert_position(old(self)@, index as int),
            final(self)@ == with_new_item(old(self)@, index as int),
    {
        let len = self.todo_list.items.len();
        let at = if index <= len {
            index
        } else {
            len
        };
        let indent_level = if at > 0 {
            self.todo_list.items[at - 1].indent_level
        } else if len > 0 {
            self.todo_list.items[0].indent_level
        } else {
            0
        };
        self.todo_list.items.insert(at, TodoItem::new(String::new(), false, indent_level));
        at
    }

    /// Puts a new, empty item behind the last one, at the depth of that one.
    pub fn add_new_item(&mut self) -> (at: usize)
        ensures
            at == old(self)@.items.len(),
            final(self)@ == with_new_item(old(self)@, old(self)@.items.len() as int),
    {
        let len = self.todo_list.items.len();
        self.insert_new_item(len)
    }

    /// Dates the list `today`.
    pub fn set_date(&mut self, today: Date)
        ensures
            final(self)@ == (ListView { date: today, ..old(self)@ }),
    {
        self.todo_list.date = today;
    }
}

} // verus!
