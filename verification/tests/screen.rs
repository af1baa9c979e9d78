use todui::date::Date;
use todui::display::{status_line, title, ui, RowStyle};
use todui::model::{TodoItem, TodoList};
use todui::state::{App, AppMode, Key};
use todui::todo_app::TodoApp;

fn app_of(items: &[(&str, bool, usize)]) -> App {
    let mut list = TodoList::new(Date::from_ymd_opt(2025, 8, 14).unwrap());
    for (text, completed, indent) in items {
        list.items.push(TodoItem::new(text.to_string(), *completed, *indent));
    }
    App::new(TodoApp::new(list))
}

fn rows(app: &App, width: usize) -> Vec<(String, RowStyle)> {
    ui(app, width).rows.iter().map(|r| (r.text.clone(), r.style)).collect()
}

fn row(text: &str, style: RowStyle) -> (String, RowStyle) {
    (text.to_string(), style)
}

#[test]
fn screen_title_names_the_day() {
    assert_eq!(title(&Date::from_ymd_opt(2025, 8, 14).unwrap()), "TODO 2025-08-14");
    assert_eq!(ui(&app_of(&[]), 40).title, "TODO 2025-08-14");
}

#[test]
fn screen_empty_list_shows_one_row() {
    let app = app_of(&[]);
    let screen = ui(&app, 40);
    assert_eq!(rows(&app, 40), vec![row("No items", RowStyle::Plain)]);
    assert_eq!(screen.selected_row, Some(0));
    assert_eq!(screen.status, "Sel | i:Insert | q:Quit");
}

#[test]
fn screen_marks_the_primary_row_of_the_selected_item() {
    let mut app = app_of(&[("aaaa bbbb", false, 0), ("done", true, 2), ("cccc dddd", true, 0)]);
    assert_eq!(
        rows(&app, 10),
        vec![
            row("* [ ] aaaa", RowStyle::Selected),
            row("      bbbb", RowStyle::Plain),
            row("    * [x] done", RowStyle::Completed),
            row("* [x] cccc", RowStyle::Completed),
            row("      dddd", RowStyle::Completed),
        ]
    );
    assert_eq!(ui(&app, 10).selected_row, Some(0));
    app.selected_index = 2;
    assert_eq!(
        rows(&app, 10),
        vec![
            row("* [ ] aaaa", RowStyle::Plain),
            row("      bbbb", RowStyle::Plain),
            row("    * [x] done", RowStyle::Completed),
            row("* [x] cccc", RowStyle::Selected),
            row("      dddd", RowStyle::Completed),
        ]
    );
    assert_eq!(ui(&app, 10).selected_row, Some(3));
}

#[test]
fn screen_shows_the_place_behind_the_last_item_while_it_is_selected() {
    let mut app = app_of(&[("a", false, 0)]);
    app.selected_index = 1;
    assert_eq!(
        rows(&app, 40),
        vec![
            row("* [ ] a", RowStyle::Plain),
            row("--- Insert new item here ---", RowStyle::InsertSlot),
        ]
    );
    assert_eq!(ui(&app, 40).selected_row, Some(1));
}

#[test]
fn screen_selection_beyond_the_list_stands_on_no_row() {
    let mut app = app_of(&[("a", false, 0)]);
    app.selected_index = 2;
    assert_eq!(rows(&app, 40), vec![row("* [ ] a", RowStyle::Plain)]);
    assert_eq!(ui(&app, 40).selected_row, None);
    let mut empty = app_of(&[]);
    empty.selected_index = 1;
    assert_eq!(ui(&empty, 40).selected_row, None);
}

#[test]
fn screen_shows_the_edit_buffer_with_the_cursor() {
    let mut app = app_of(&[("first", false, 0), ("second", false, 0)]);
    app.selected_index = 1;
    app.handle_key_event(Key::Enter);
    app.handle_key_event(Key::Left);
    app.handle_key_event(Key::Char('!'));
    assert_eq!(
        rows(&app, 40),
        vec![row("* [ ] first", RowStyle::Plain), row("* [ ] secon!|d", RowStyle::Selected)]
    );
    let screen = ui(&app, 40);
    assert_eq!(screen.selected_row, Some(1));
    assert_eq!(screen.status, "Edit | Enter:Confirm | Esc:Cancel | ←→:Move cursor");
}

#[test]
fn screen_marks_the_item_that_waits_for_deletion() {
    let mut app = app_of(&[("aaaa bbbb", true, 0), ("last", false, 0)]);
    app.handle_key_event(Key::Char('d'));
    assert_eq!(
        rows(&app, 10),
        vec![
            row("* [x] aaaa", RowStyle::Delete),
            row("      bbbb", RowStyle::Completed),
            row("* [ ] last", RowStyle::Plain),
        ]
    );
    assert_eq!(ui(&app, 10).status, "Delete | y:Confirm Delete | Esc:Cancel");
}

#[test]
fn screen_status_line_of_each_mode() {
    assert_eq!(status_line(AppMode::Selection, true), "Sel | i:Insert | q:Quit");
    assert_eq!(
        status_line(AppMode::Selection, false),
        "Sel | ↑k:Up | ↓j:Down | x:Toggle | i:Insert | Enter:Edit | Tab:Indent | Shift+Tab:Unindent | d:Delete | q:Quit"
    );
    assert_eq!(
        status_line(AppMode::Edit, false),
        "Edit | Enter:Confirm | Esc:Cancel | ←→:Move cursor"
    );
    assert_eq!(status_line(AppMode::Delete, false), "Delete | y:Confirm Delete | Esc:Cancel");
}
