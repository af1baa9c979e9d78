//! What a front-end shows of a session: the rows of the list, the row that
//! the selection stands on, and the status line.
//!
//! This module says what is shown and how each row is to be marked; drawing
//! it is left to the front-end.

use crate::chars::{append_chars, to_chars, to_string};
use crate::date::Date;
use crate::state::{App, AppMode, AppView};
use crate::wrap::{layout, line_views, shown_text, wrap_todo_item_text};
use crate::wrap_laws::lemma_layout_shape;
use vstd::prelude::*;

verus! {

/// How a row is to be marked.
#[derive(Clone, Copy, Debug, PartialEq, Eq, Structural)]
pub enum RowStyle {
    /// A row of an item that is neither selected nor completed.
    Plain,
    /// A row of a completed item.
    Completed,
    /// The primary row of the selected item.
    Selected,
    /// The primary row of the item whose deletion waits to be confirmed.
    Delete,
    /// The place behind the last item, while the selection stands on it.
    InsertSlot,
}

/// What a row is, in specifications.
pub struct RowView {
    pub text: Seq<char>,
    pub style: RowStyle,
}

/// One row of the list as it is shown.
#[derive(Debug)]
pub struct Row {
    pub text: String,
    pub style: RowStyle,
}

impl View for Row {
    type V = RowView;

    open spec fn view(&self) -> RowView {
        RowView { text: self.text@, style: self.style }
    }
}

/// The views of a sequence of rows.
pub open spec fn row_views(rows: Seq<Row>) -> Seq<RowView> {
    Seq::new(rows.len(), |i: int| rows[i]@)
}

/// What is shown of a session.
#[derive(Debug)]
pub struct Screen {
    /// The title of the list.
    pub title: String,
    /// The rows of the list, from the top.
    pub rows: Vec<Row>,
    /// The row that the selection stands on, if it stands on one.
    pub selected_row: Option<usize>,
    /// The status line.
    pub status: String,
}

/// How a row of an item is marked. Only the primary row of the selected
/// item shows the selection or the pending deletion.
pub open spec fn row_style(completed: bool, selected: bool, mode: AppMode, primary: bool)
    -> RowStyle {
    if selected && primary && mode == AppMode::Delete {
        RowStyle::Delete
    } else if selected && primary {
        RowStyle::Selected
    } else if completed {
        RowStyle::Completed
    } else {
        RowStyle::Plain
    }
}

/// The display lines of item `i` in a viewport of the given width.
pub open spec fn item_layout(s: AppView, width: nat, i: int) -> Seq<(Seq<char>, bool)> {
    let item = s.list.items[i];
    let selected = i == s.selected_index;
    layout(
        item,
        width,
        shown_text(
            item,
            selected,
            s.edit.text,
            s.edit.cursor,
            s.mode == AppMode::Edit && selected,
        ),
    )
}

/// The rows of item `i`.
pub open spec fn item_rows(s: AppView, width: nat, i: int) -> Seq<RowView> {
    let lines = item_layout(s, width, i);
    Seq::new(
        lines.len(),
        |k: int|
            RowView {
                text: lines[k].0,
                style: row_style(
                    s.list.items[i].completed,
                    i == s.selected_index,
                    s.mode,
                    lines[k].1,
                ),
            },
    )
}

/// The rows of the first `n` items.
pub open spec fn rows_of_first(s: AppView, width: nat, n: nat) -> Seq<RowView>
    decreases n,
{
    if n == 0 {
        Seq::empty()
    } else {
        rows_of_first(s, width, (n - 1) as nat) + item_rows(s, width, n - 1)
    }
}

/// The row that stands for the place behind the last item.
pub open spec fn insert_slot() -> RowView {
    RowView { text: "--- Insert new item here ---"@, style: RowStyle::InsertSlot }
}

/// The row that is shown in place of an empty list.
pub open spec fn no_items() -> RowView {
    RowView { text: "No items"@, style: RowStyle::Plain }
}

/// The rows that are shown: those of the items in order, and behind them
/// the place for a new item while the selection stands on it.
pub open spec fn screen_rows(s: AppView, width: nat) -> Seq<RowView> {
    let len = s.list.items.len();
    if len == 0 {
        seq![no_items()]
    } else if s.selected_index == len {
        rows_of_first(s, width, len).push(insert_slot())
    } else {
        rows_of_first(s, width, len)
    }
}

/// The row that the selection stands on: the primary row of the selected
/// item, or the row of the place behind the last item.
pub open spec fn selected_row(s: AppView, width: nat) -> Option<int> {
    let len = s.list.items.len();
    if len == 0 {
        if s.selected_index == 0 {
            Some(0)
        } else {
            None
        }
    } else if s.selected_index <= len {
        Some(rows_of_first(s, width, s.selected_index).len() as int)
    } else {
        None
    }
}

/// The status line of each mode.
pub open spec fn status_text(mode: AppMode, empty: bool) -> Seq<char> {
    match mode {
        AppMode::Selection => if empty {
            "Sel | i:Insert | q:Quit"@
        } else {
            "Sel | ↑k:Up | ↓j:Down | x:Toggle | i:Insert | Enter:Edit | Tab:Indent | Shift+Tab:Unindent | d:Delete | q:Quit"@
        },
        AppMode::Edit => "Edit | Enter:Confirm | Esc:Cancel | ←→:Move cursor"@,
        AppMode::Delete => "Delete | y:Confirm Delete | Esc:Cancel"@,
    }
}

/// The title of a list of the given day.
pub open spec fn title_text(date: Date) -> Seq<char> {
    seq!['T', 'O', 'D', 'O', ' '] + date.text()
}

/// The row that was found, as a number.
pub open spec fn row_number(r: Option<usize>) -> Option<int> {
    match r {
        Some(i) => Some(i as int),
        None => None,
    }
}

/// The selection stands on a row that is shown, and that row is marked as
/// selected, as waiting for deletion or as the place for a new item.
pub proof fn lemma_selected_row_is_marked(s: AppView, width: nat)
    requires
        s.list.items.len() > 0,
        s.selected_index <= s.list.items.len(),
    ensures
        selected_row(s, width) matches Some(r) && 0 <= r < screen_rows(s, width).len() && (
        screen_rows(s, width)[r].style == RowStyle::Selected || screen_rows(s, width)[r].style
            == RowStyle::Delete || screen_rows(s, width)[r].style == RowStyle::InsertSlot),
{
    let len = s.list.items.len();
    let sel = s.selected_index;
    if sel < len {
        let item = s.list.items[sel as int];
        let text = shown_text(item, true, s.edit.text, s.edit.cursor, s.mode == AppMode::Edit);
        lemma_layout_shape(item, width, text);
        let before = rows_of_first(s, width, sel);
        assert(rows_of_first(s, width, sel + 1)[before.len() as int] == item_rows(
            s,
            width,
            sel as int,
        )[0]);
        lemma_rows_grow(s, width, sel + 1, len);
    }
}

/// The rows of the first `n` items begin the rows of the first `m`, for
/// `n <= m`.
proof fn lemma_rows_grow(s: AppView, width: nat, n: nat, m: nat)
    requires
        n <= m,
    ensures
        rows_of_first(s, width, n).len() <= rows_of_first(s, width, m).len(),
        forall|k: int|
            0 <= k < rows_of_first(s, width, n).len() ==> rows_of_first(s, width, m)[k]
                == #[trigger] rows_of_first(s, width, n)[k],
    decreases m - n,
{
    if n < m {
        lemma_rows_grow(s, width, n, (m - 1) as nat);
    }
}

/// The status line of a mode.
pub fn status_line(mode: AppMode, empty: bool) -> (text: String)
    ensures
        text@ == status_text(mode, empty),
{
    match mode {
        AppMode::Selection => {
            if empty {
                "Sel | i:Insert | q:Quit".to_owned()
            } else {
                "Sel | ↑k:Up | ↓j:Down | x:Toggle | i:Insert | Enter:Edit | Tab:Indent | Shift+Tab:Unindent | d:Delete | q:Quit".to_owned()
            }
        },
        AppMode::Edit => "Edit | Enter:Confirm | Esc:Cancel | ←→:Move cursor".to_owned(),
        AppMode::Delete => "Delete | y:Confirm Delete | Esc:Cancel".to_owned(),
    }
}

/// The title of a list of the given day.
pub fn title(date: &Date) -> (text: String)
    ensures
        text@ == title_text(*date),
{
    let mut out: Vec<char> = Vec::new();
    out.push('T');
    out.push('O');
    out.push('D');
    out.push('O');
    out.push(' ');
    let day = to_chars(date.to_text().as_str());
    append_chars(&mut out, &day);
    to_string(&out)
}

/// What is shown of `app` in a list that is `available_width` characters
/// wide.
pub fn ui(app: &App, available_width: usize) -> (screen: Screen)
    ensures
        screen.title@ == title_text(app@.list.date),
        row_views(screen.rows@) == screen_rows(app@, available_width as nat),
        row_number(screen.selected_row) == selected_row(app@, available_width as nat),
        screen.status@ == status_text(app@.mode, app@.list.items.len() == 0),
{
    let ghost s = app@;
    let ghost width = available_width as nat;
    let items = &app.todo_list.todo_list.items;
    let len = items.len();
    let mut rows: Vec<Row> = Vec::new();
    let mut selected: Option<usize> = None;
    if len == 0 {
        rows.push(Row { text: "No items".to_owned(), style: RowStyle::Plain });
        if app.selected_index == 0 {
            selected = Some(0);
        }
    } else {
        let mut i: usize = 0;
        while i < len
            invariant
                i <= len,
                len == items.len(),
                len > 0,
                s == app@,
                width == available_width,
                *items == app.todo_list.todo_list.items,
                row_views(rows@) == rows_of_first(s, width, i as nat),
                row_number(selected) == if app.selected_index < i {
                    Some(rows_of_first(s, width, app.selected_index as nat).len() as int)
                } else {
                    None
                },
            decreases len - i,
        {
            let is_selected = i == app.selected_index;
            let is_editing = app.mode == AppMode::Edit && is_selected;
            let is_delete = app.mode == AppMode::Delete && is_selected;
            let lines = wrap_todo_item_text(
                &items[i],
                available_width,
                is_selected,
                app.edit.text.as_str(),
                app.edit.cursor,
                is_editing,
            );
            if is_selected {
                selected = Some(rows.len());
            }
            let ghost before = row_views(rows@);
            let ghost expected = item_rows(s, width, i as int);
            let mut k: usize = 0;
            while k < lines.len()
                invariant
                    k <= lines.len(),
                    i < len,
                    len == items.len(),
                    s == app@,
                    *items == app.todo_list.todo_list.items,
                    is_selected == (i == app.selected_index),
                    is_delete == (app.mode == AppMode::Delete && is_selected),
                    line_views(lines@) == item_layout(s, width, i as int),
                    expected == item_rows(s, width, i as int),
                    row_views(rows@) == before + expected.take(k as int),
                decreases lines.len() - k,
            {
                let primary = lines[k].1;
                let style = if is_delete && primary {
                    RowStyle::Delete
                } else if is_selected && primary {
                    RowStyle::Selected
                } else if items[i].completed {
                    RowStyle::Completed
                } else {
                    RowStyle::Plain
                };
                let row = Row { text: lines[k].0.clone(), style };
                assert(row_views(rows@.push(row)) =~= row_views(rows@).push(row@));
                rows.push(row);
                k += 1;
            }
            i += 1;
        }
        if app.selected_index == len {
            selected = Some(rows.len());
            rows.push(
                Row { text: "--- Insert new item here ---".to_owned(), style: RowStyle::InsertSlot },
            );
        }
    }
    Screen {
        title: title(&app.todo_list.todo_list.date),
        rows,
        selected_row: selected,
        status: status_line(app.mode, len == 0),
    }
}

} // verus!
