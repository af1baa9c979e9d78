//! The interaction state machine: what each key does in each mode.
//!
//! The machine decides and changes the list and the edit buffer; it does no
//! input or output of its own. What comes back from a key tells the caller
//! whether the list is to be saved now.

use crate::edit::{remove_char_at, BufferView, EditBuffer};
use crate::model::ListView;
use crate::todo_app::{
    indented, insert_position, lemma_remove_new_item, outdented, removed, toggled, with_new_item,
    with_text, TodoApp,
};
use vstd::prelude::*;

verus! {

/// A key press, as far as the machine tells keys apart.
#[derive(Clone, Copy, Debug, PartialEq, Eq, Structural)]
pub enum Key {
    Char(char),
    Up,
    Down,
    Left,
    Right,
    Enter,
    Esc,
    Tab,
    BackTab,
    Backspace,
    Delete,
    Home,
    End,
    Other,
}

/// The three modes of the machine.
#[derive(Clone, Copy, Debug, PartialEq, Eq, Structural)]
pub enum AppMode {
    /// Moving through the list.
    Selection,
    /// Typing the text of the selected item.
    Edit,
    /// Waiting for the deletion of the selected item to be confirmed.
    Delete,
}

/// What the state of the machine is, in specifications.
#[verifier::ext_equal]
pub struct AppView {
    pub list: ListView,
    pub selected_index: nat,
    pub mode: AppMode,
    pub edit: BufferView,
    pub should_quit: bool,
}

impl AppView {
    /// What holds of every state that the machine reaches from its start:
    /// the selection names an item or the place behind the last one; an
    /// item that is being edited or about to be deleted exists; the cursor
    /// stands inside the edit buffer, which is empty outside of edit mode.
    pub open spec fn wf(self) -> bool {
        &&& self.selected_index <= self.list.items.len()
        &&& self.mode != AppMode::Selection ==> self.selected_index < self.list.items.len()
        &&& self.edit.wf()
        &&& self.mode != AppMode::Edit ==> self.edit == BufferView::empty()
    }
}

/// The selection one item up.
pub open spec fn moved_up(selected: nat, len: nat) -> nat {
    if selected == 0 {
        0
    } else if selected - 1 <= len {
        (selected - 1) as nat
    } else {
        len
    }
}

/// The selection one item down, as far as the place behind the last item.
pub open spec fn moved_down(selected: nat, len: nat) -> nat {
    if selected < len {
        selected + 1
    } else {
        len
    }
}

/// The selection after a deletion: on the item that followed the deleted
/// one, or on the last item where none followed.
pub open spec fn selection_after_delete(selected: nat, len: nat) -> nat {
    if len == 0 {
        0
    } else if selected <= len - 1 {
        selected
    } else {
        (len - 1) as nat
    }
}

/// The selection brought back onto the list, the place behind the last
/// item included.
pub open spec fn clamped(selected: nat, len: nat) -> nat {
    if selected <= len {
        selected
    } else {
        len
    }
}

/// A new, empty item is put in at `index` and opened for editing.
pub open spec fn inserting(s: AppView, index: nat) -> AppView {
    AppView {
        list: with_new_item(s.list, index as int),
        selected_index: insert_position(s.list, index as int) as nat,
        mode: AppMode::Edit,
        edit: BufferView::empty(),
        ..s
    }
}

/// What a key does in selection mode, and whether the list is to be saved.
pub open spec fn selection_step(s: AppView, key: Key) -> (AppView, bool) {
    let len = s.list.items.len();
    let selected = s.selected_index;
    if key == Key::Char('q') {
        (AppView { should_quit: true, ..s }, false)
    } else if key == Key::Up || key == Key::Char('k') {
        (AppView { selected_index: moved_up(selected, len), ..s }, false)
    } else if key == Key::Down || key == Key::Char('j') {
        (AppView { selected_index: moved_down(selected, len), ..s }, false)
    } else if key == Key::Char('x') {
        (AppView { list: toggled(s.list, selected as int), ..s }, selected < len)
    } else if key == Key::Char('i') {
        (inserting(s, selected), false)
    } else if key == Key::Enter {
        if selected < len {
            (
                AppView {
                    mode: AppMode::Edit,
                    edit: BufferView::open(s.list.items[selected as int].text),
                    ..s
                },
                false,
            )
        } else if selected == len {
            (inserting(s, selected), false)
        } else {
            (s, false)
        }
    } else if key == Key::Tab {
        (AppView { list: indented(s.list, selected as int), ..s }, selected < len)
    } else if key == Key::BackTab {
        (AppView { list: outdented(s.list, selected as int), ..s }, selected < len)
    } else if key == Key::Char('d') {
        if selected < len {
            (AppView { mode: AppMode::Delete, ..s }, false)
        } else {
            (s, false)
        }
    } else {
        (s, false)
    }
}

/// The list once editing is cancelled: without the edited item where that
/// has no text, which undoes the insertion of a new item.
pub open spec fn cancelled_list(s: AppView) -> ListView {
    if s.selected_index < s.list.items.len() && s.list.items[s.selected_index as int].text.len()
        == 0 {
        removed(s.list, s.selected_index as int)
    } else {
        s.list
    }
}

/// What a key does in edit mode, and whether the list is to be saved.
pub open spec fn edit_step(s: AppView, key: Key) -> (AppView, bool) {
    match key {
        Key::Esc => {
            let list = cancelled_list(s);
            (
                AppView {
                    list,
                    selected_index: clamped(s.selected_index, list.items.len()),
                    mode: AppMode::Selection,
                    edit: BufferView::empty(),
                    ..s
                },
                false,
            )
        },
        Key::Enter => (
            AppView {
                list: with_text(s.list, s.selected_index as int, s.edit.text),
                mode: AppMode::Selection,
                edit: BufferView::empty(),
                ..s
            },
            s.selected_index < s.list.items.len(),
        ),
        Key::Left => (AppView { edit: s.edit.move_left(), ..s }, false),
        Key::Right => (AppView { edit: s.edit.move_right(), ..s }, false),
        Key::Backspace => (AppView { edit: s.edit.delete_before(), ..s }, false),
        Key::Delete => (AppView { edit: s.edit.delete_at(), ..s }, false),
        Key::Home => (AppView { edit: s.edit.move_home(), ..s }, false),
        Key::End => (AppView { edit: s.edit.move_end(), ..s }, false),
        Key::Char(c) => (AppView { edit: s.edit.insert(c), ..s }, false),
        _ => (s, false),
    }
}

/// What a key does while a deletion waits to be confirmed, and whether the
/// list is to be saved.
pub open spec fn delete_step(s: AppView, key: Key) -> (AppView, bool) {
    if key == Key::Char('y') {
        let list = removed(s.list, s.selected_index as int);
        (
            AppView {
                list,
                selected_index: selection_after_delete(s.selected_index, list.items.len()),
                mode: AppMode::Selection,
                ..s
            },
            s.selected_index < s.list.items.len(),
        )
    } else if key == Key::Esc {
        (AppView { mode: AppMode::Selection, ..s }, false)
    } else {
        (s, false)
    }
}

/// What a key does, and whether the list is to be saved.
pub open spec fn step(s: AppView, key: Key) -> (AppView, bool) {
    match s.mode {
        AppMode::Selection => selection_step(s, key),
        AppMode::Edit => edit_step(s, key),
        AppMode::Delete => delete_step(s, key),
    }
}

/// No key leads out of the states in which the selection, the edited item
/// and the cursor are in bounds.
pub proof fn lemma_step_keeps_wf(s: AppView, key: Key)
    requires
        s.wf(),
    ensures
        step(s, key).0.wf(),
{
}

/// An insertion that is cancelled before anything is typed leaves the list
/// as it was, with the selection where the new item would have stood.
pub proof fn lemma_insert_then_cancel(s: AppView)
    requires
        s.mode == AppMode::Selection,
    ensures
        step(step(s, Key::Char('i')).0, Key::Esc).0.list == s.list,
        step(step(s, Key::Char('i')).0, Key::Esc).0.mode == AppMode::Selection,
        step(step(s, Key::Char('i')).0, Key::Esc).0.selected_index == clamped(
            s.selected_index,
            s.list.items.len(),
        ),
        !step(s, Key::Char('i')).1,
        !step(step(s, Key::Char('i')).0, Key::Esc).1,
{
    lemma_remove_new_item(s.list, s.selected_index);
}

/// Confirming an edit while the selection names no item changes no item,
/// asks for no save and leads back to selection mode.
pub proof fn lemma_confirm_without_item(s: AppView)
    requires
        s.mode == AppMode::Edit,
        s.selected_index >= s.list.items.len(),
    ensures
        step(s, Key::Enter).0.list == s.list,
        step(s, Key::Enter).0.mode == AppMode::Selection,
        step(s, Key::Enter).0.selected_index == s.selected_index,
        !step(s, Key::Enter).1,
{
}

/// A confirmed deletion takes out the selected item and no other, and
/// leaves the selection on an item of the list: on the one that followed,
/// or on the one before where the last item was deleted.
pub proof fn lemma_confirm_delete(s: AppView)
    requires
        s.mode == AppMode::Delete,
        s.selected_index < s.list.items.len(),
    ensures
        step(s, Key::Char('y')).0.list.items == s.list.items.remove(s.selected_index as int),
        step(s, Key::Char('y')).0.list.items.len() == s.list.items.len() - 1,
        step(s, Key::Char('y')).0.mode == AppMode::Selection,
        step(s, Key::Char('y')).1,
        s.selected_index + 1 < s.list.items.len() ==> step(s, Key::Char('y')).0.selected_index
            == s.selected_index,
        0 < s.selected_index == s.list.items.len() - 1 ==> step(
            s,
            Key::Char('y'),
        ).0.selected_index == s.selected_index - 1,
        s.list.items.len() > 1 ==> step(s, Key::Char('y')).0.selected_index < step(
            s,
            Key::Char('y'),
        ).0.list.items.len(),
        s.list.items.len() == 1 ==> step(s, Key::Char('y')).0.selected_index == 0,
{
}

/// In edit mode the keys that move the cursor, delete or type change the
/// edit buffer and nothing else: the mode, the selection and the list stay
/// as they are, and no save is asked for.
pub proof fn lemma_typing_changes_the_buffer_only(s: AppView, key: Key)
    requires
        s.mode == AppMode::Edit,
        key != Key::Esc,
        key != Key::Enter,
    ensures
        step(s, key).0 == (AppView { edit: step(s, key).0.edit, ..s }),
        !step(s, key).1,
{
}

/// Moving the selection or the cursor changes no item and asks for no save.
pub proof fn lemma_moves_do_not_save(s: AppView, key: Key)
    requires
        key == Key::Up || key == Key::Down || key == Key::Left || key == Key::Right || key
            == Key::Home || key == Key::End || key == Key::Char('k') || key == Key::Char('j'),
        s.mode == AppMode::Edit ==> key != Key::Char('k') && key != Key::Char('j'),
    ensures
        step(s, key).0.list == s.list,
        !step(s, key).1,
{
}

/// The state of an editing session.
#[derive(Debug)]
pub struct App {
    pub todo_list: TodoApp,
    pub selected_index: usize,
    pub mode: AppMode,
    pub edit: EditBuffer,
    pub should_quit: bool,
}

impl View for App {
    type V = AppView;

    open spec fn view(&self) -> AppView {
        AppView {
            list: self.todo_list@,
            selected_index: self.selected_index as nat,
            mode: self.mode,
            edit: self.edit@,
            should_quit: self.should_quit,
        }
    }
}

impl App {
    /// A session on `todo_list`: selection mode, the first item selected.
    pub fn new(todo_list: TodoApp) -> (app: App)
        ensures
            app.todo_list == todo_list,
            app@ == (AppView {
                list: todo_list@,
                selected_index: 0,
                mode: AppMode::Selection,
                edit: BufferView::empty(),
                should_quit: false,
            }),
            app@.wf(),
    {
        App {
            todo_list,
            selected_index: 0,
            mode: AppMode::Selection,
            edit: EditBuffer::new(),
            should_quit: false,
        }
    }

    /// Handles a key in the mode that the session is in. Returns whether
    /// the list is to be saved now.
    pub fn handle_key_event(&mut self, key: Key) -> (persist: bool)
        ensures
            (final(self)@, persist) == step(old(self)@, key),
            old(self)@.wf() ==> final(self)@.wf(),
    {
        proof {
            if self@.wf() {
                lemma_step_keeps_wf(self@, key);
            }
        }
        match self.mode {
            AppMode::Selection => self.handle_selection_mode_key(key),
            AppMode::Edit => self.handle_edit_mode_key(key),
            AppMode::Delete => self.handle_delete_mode_key(key),
        }
    }

    /// Puts a new item in at `index` and opens it for editing.
    fn insert_and_edit(&mut self, index: usize)
        ensures
            final(self)@ == inserting(old(self)@, index as nat),
    {
        let at = self.todo_list.insert_new_item(index);
        self.selected_index = at;
        self.edit.clear();
        self.mode = AppMode::Edit;
    }

    /// Handles a key in selection mode.
    pub fn handle_selection_mode_key(&mut self, key: Key) -> (persist: bool)
        ensures
            (final(self)@, persist) == selection_step(old(self)@, key),
    {
        let len = self.todo_list.len();
        let selected = self.selected_index;
        match key {
            Key::Char('q') => {
                self.should_quit = true;
                false
            },
            Key::Up | Key::Char('k') => {
                if selected > 0 {
                    self.selected_index = if selected - 1 <= len {
                        selected - 1
                    } else {
                        len
                    };
                }
                false
            },
            Key::Down | Key::Char('j') => {
                self.selected_index = if selected < len {
                    selected + 1
                } else {
                    len
                };
                false
            },
            Key::Char('x') => self.todo_list.toggle_item_completed(selected),
            Key::Char('i') => {
                self.insert_and_edit(selected);
                false
            },
            Key::Enter => {
                if selected < len {
                    self.edit = EditBuffer::open(
                        self.todo_list.todo_list.items[selected].text.as_str(),
                    );
                    self.mode = AppMode::Edit;
                } else if selected == len {
                    self.insert_and_edit(selected);
                }
                false
            },
            Key::Tab => self.todo_list.indent_item_right(selected),
            Key::BackTab => self.todo_list.indent_item_left(selected),
            Key::Char('d') => {
                if selected < len {
                    self.mode = AppMode::Delete;
                }
                false
            },
            _ => false,
        }
    }

    /// Handles a key in edit mode.
    pub fn handle_edit_mode_key(&mut self, key: Key) -> (persist: bool)
        ensures
            (final(self)@, persist) == edit_step(old(self)@, key),
    {
        match key {
            Key::Esc => {
                let selected = self.selected_index;
                if selected < self.todo_list.len()
                    && self.todo_list.todo_list.items[selected].text.as_str().is_empty() {
                    let _ = self.todo_list.delete_item(selected);
                }
                let len = self.todo_list.len();
                if selected > len {
                    self.selected_index = len;
                }
                self.mode = AppMode::Selection;
                self.edit.clear();
                false
            },
            Key::Enter => {
                let text = self.edit.text.clone();
                let persist = self.todo_list.update_item_text(self.selected_index, text);
                self.mode = AppMode::Selection;
                self.edit.clear();
                persist
            },
            Key::Left => {
                self.edit.move_left();
                false
            },
            Key::Right => {
                self.edit.move_right();
                false
            },
            Key::Backspace => {
                self.edit.delete_before();
                false
            },
            Key::Delete => {
                self.edit.delete_at();
                false
            },
            Key::Home => {
                self.edit.move_home();
                false
            },
            Key::End => {
                self.edit.move_end();
                false
            },
            Key::Char(c) => {
                self.edit.insert(c);
                false
            },
            _ => false,
        }
    }

    /// Takes the character at position `char_index` out of `text`, and says
    /// whether there was one.
    pub fn remove_edit_text_char_at(text: &mut String, char_index: usize) -> (removed: bool)
        ensures
            removed == (char_index < old(text)@.len()),
            removed ==> final(text)@ == old(text)@.remove(char_index as int),
            !removed ==> final(text)@ == old(text)@,
    {
        remove_char_at(text, char_index)
    }

    /// Handles a key while a deletion waits to be confirmed.
    pub fn handle_delete_mode_key(&mut self, key: Key) -> (persist: bool)
        ensures
            (final(self)@, persist) == delete_step(old(self)@, key),
    {
        match key {
            Key::Char('y') => {
                let persist = self.todo_list.delete_item(self.selected_index);
                let len = self.todo_list.len();
                if len == 0 {
                    self.selected_index = 0;
                } else if self.selected_index > len - 1 {
                    self.selected_index = len - 1;
                }
                self.mode = AppMode::Selection;
                persist
            },
            Key::Esc => {
                self.mode = AppMode::Selection;
                false
            },
            _ => false,
        }
    }

    /// Whether the session is to end.
    pub fn should_quit(&self) -> (quit: bool)
        ensures
            quit == self@.should_quit,
    {
        self.should_quit
    }
}

} // verus!
