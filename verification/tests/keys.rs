use todui::date::Date;
use todui::edit::EditBuffer;
use todui::model::{TodoItem, TodoList};
use todui::state::{App, AppMode, Key};
use todui::todo_app::TodoApp;

#[test]
fn main_test_delete_mode_transitions() {
    let date = Date::from_ymd_opt(2025, 8, 14).unwrap();
    let mut todo_list = TodoList::new(date);
    todo_list
        .items
        .push(TodoItem::new("Test item".to_string(), false, 0));

    let mut app = App {
        todo_list: TodoApp::new(todo_list),
        selected_index: 0,
        mode: AppMode::Selection,
        edit: EditBuffer {
            text: String::new(),
            cursor: 0,
        },
        should_quit: false,
    };

    // Test entering delete mode
    assert_eq!(app.mode, AppMode::Selection);
    app.handle_key_event(Key::Char('d'));
    assert_eq!(app.mode, AppMode::Delete);

    // Test canceling delete
    app.handle_key_event(Key::Esc);
    assert_eq!(app.mode, AppMode::Selection);
    assert_eq!(app.todo_list.todo_list.items.len(), 1); // Item should still exist
}

#[test]
fn main_test_delete_confirmation() {
    let date = Date::from_ymd_opt(2025, 8, 14).unwrap();
    let mut todo_list = TodoList::new(date);
    todo_list
        .items
        .push(TodoItem::new("Item 1".to_string(), false, 0));
    todo_list
        .items
        .push(TodoItem::new("Item 2".to_string(), false, 0));

    let mut app = App {
        todo_list: TodoApp::new(todo_list),
        selected_index: 0,
        mode: AppMode::Selection,
        edit: EditBuffer {
            text: String::new(),
            cursor: 0,
        },
        should_quit: false,
    };

    // Enter delete mode and confirm delete
    assert_eq!(app.todo_list.todo_list.items.len(), 2);
    app.handle_key_event(Key::Char('d'));
    assert_eq!(app.mode, AppMode::Delete);

    app.handle_key_event(Key::Char('y'));
    assert_eq!(app.mode, AppMode::Selection);
    assert_eq!(app.todo_list.todo_list.items.len(), 1); // One item should be deleted
    assert_eq!(app.todo_list.todo_list.items[0].text, "Item 2"); // Remaining item should be "Item 2"
}

#[test]
fn main_test_delete_last_item_adjusts_selection() {
    let date = Date::from_ymd_opt(2025, 8, 14).unwrap();
    let mut todo_list = TodoList::new(date);
    todo_list
        .items
        .push(TodoItem::new("Only item".to_string(), false, 0));

    let mut app = App {
        todo_list: TodoApp::new(todo_list),
        selected_index: 0,
        mode: AppMode::Selection,
        edit: EditBuffer {
            text: String::new(),
            cursor: 0,
        },
        should_quit: false,
    };

    // Delete the only item
    app.handle_key_event(Key::Char('d'));
    app.handle_key_event(Key::Char('y'));

    assert_eq!(app.todo_list.todo_list.items.len(), 0);
    assert_eq!(app.selected_index, 0); // Should be 0 when no items
}

#[test]
fn main_test_delete_adjusts_selection_when_deleting_last_item() {
    let date = Date::from_ymd_opt(2025, 8, 14).unwrap();
    let mut todo_list = TodoList::new(date);
    todo_list
        .items
        .push(TodoItem::new("Item 1".to_string(), false, 0));
    todo_list
        .items
        .push(TodoItem::new("Item 2".to_string(), false, 0));
    todo_list
        .items
        .push(TodoItem::new("Item 3".to_string(), false, 0));

    let mut app = App {
        todo_list: TodoApp::new(todo_list),
        selected_index: 2, // Select the last item
        mode: AppMode::Selection,
        edit: EditBuffer {
            text: String::new(),
            cursor: 0,
        },
        should_quit: false,
    };

    // Delete the last item
    app.handle_key_event(Key::Char('d'));
    app.handle_key_event(Key::Char('y'));

    assert_eq!(app.todo_list.todo_list.items.len(), 2);
    assert_eq!(app.selected_index, 1); // Should move to previous item
    assert_eq!(app.todo_list.todo_list.items[1].text, "Item 2");
}

#[test]
fn main_test_edit_mode_enter_key_confirms_changes() {
    let date = Date::from_ymd_opt(2025, 8, 14).unwrap();
    let mut todo_list = TodoList::new(date);
    todo_list
        .items
        .push(TodoItem::new("Original text".to_string(), false, 0));

    let mut app = App {
        todo_list: TodoApp::new(todo_list),
        selected_index: 0,
        mode: AppMode::Selection,
        edit: EditBuffer {
            text: String::new(),
            cursor: 0,
        },
        should_quit: false,
    };

    // Enter edit mode
    app.handle_key_event(Key::Enter);
    assert_eq!(app.mode, AppMode::Edit);

    // Simulate typing some text
    app.edit.text = "Modified text".to_string();
    app.edit.cursor = app.edit.text.chars().count();

    // Confirm with Enter key
    app.handle_key_event(Key::Enter);

    // Should return to selection mode and save changes
    assert_eq!(app.mode, AppMode::Selection);
    assert_eq!(app.todo_list.todo_list.items[0].text, "Modified text");
}

#[test]
fn main_test_enter_key_at_virtual_insertion_point() {
    let date = Date::from_ymd_opt(2025, 8, 14).unwrap();
    let mut todo_list = TodoList::new(date);
    todo_list
        .items
        .push(TodoItem::new("Existing item".to_string(), false, 0));

    let mut app = App {
        todo_list: TodoApp::new(todo_list),
        selected_index: 1, // At virtual insertion point (past last item)
        mode: AppMode::Selection,
        edit: EditBuffer {
            text: String::new(),
            cursor: 0,
        },
        should_quit: false,
    };

    // Enter on the place behind the last item appends a new item and opens it
    app.handle_key_event(Key::Enter);

    assert_eq!(app.mode, AppMode::Edit);
    assert_eq!(app.todo_list.todo_list.items.len(), 2);
}

#[test]
fn main_test_insert_edit_confirm_workflow() {
    let date = Date::from_ymd_opt(2025, 8, 14).unwrap();
    let mut todo_list = TodoList::new(date);
    todo_list
        .items
        .push(TodoItem::new("Existing item".to_string(), false, 0));

    let mut app = App {
        todo_list: TodoApp::new(todo_list),
        selected_index: 1, // At virtual insertion point (past last item)
        mode: AppMode::Selection,
        edit: EditBuffer {
            text: String::new(),
            cursor: 0,
        },
        should_quit: false,
    };

    // Insert new item with 'i'
    app.handle_key_event(Key::Char('i'));
    assert_eq!(app.mode, AppMode::Edit);
    assert_eq!(app.todo_list.todo_list.items.len(), 2);
    assert_eq!(app.selected_index, 1);

    // Type some text
    app.handle_key_event(Key::Char('N'));
    app.handle_key_event(Key::Char('e'));
    app.handle_key_event(Key::Char('w'));
    assert_eq!(app.edit.text, "New");

    // Confirm with Enter
    app.handle_key_event(Key::Enter);

    // Should return to selection mode and save the text
    assert_eq!(app.mode, AppMode::Selection);
    assert_eq!(app.todo_list.todo_list.items.len(), 2);
    assert_eq!(app.todo_list.todo_list.items[1].text, "New");
}

#[test]
fn main_test_edit_mode_enter_key_bounds_check() {
    let date = Date::from_ymd_opt(2025, 8, 14).unwrap();
    let mut todo_list = TodoList::new(date);
    todo_list
        .items
        .push(TodoItem::new("Test item".to_string(), false, 0));

    let mut app = App {
        todo_list: TodoApp::new(todo_list),
        selected_index: 5, // Invalid index - way past items.len()
        mode: AppMode::Edit,
        edit: EditBuffer {
            text: "Modified text".to_string(),
            cursor: 13, // Character count, not byte count
        },
        should_quit: false,
    };

    // Try to confirm changes with invalid index
    app.handle_key_event(Key::Enter);

    // Should exit edit mode but not save changes due to bounds check
    assert_eq!(app.mode, AppMode::Selection);
    assert_eq!(app.todo_list.todo_list.items[0].text, "Test item"); // Original text unchanged
}

#[test]
fn main_test_unicode_character_handling() {
    let date = Date::from_ymd_opt(2025, 8, 14).unwrap();
    let mut todo_list = TodoList::new(date);
    todo_list
        .items
        .push(TodoItem::new("Test".to_string(), false, 0));

    let mut app = App {
        todo_list: TodoApp::new(todo_list),
        selected_index: 0,
        mode: AppMode::Edit,
        edit: EditBuffer {
            text: "Hallo".to_string(),
            cursor: 5,
        },
        should_quit: false,
    };

    // Insert German umlaut ü at the end
    app.handle_key_event(Key::Char('ü'));
    assert_eq!(app.edit.text, "Halloü");
    assert_eq!(app.edit.cursor, 6);

    // Move cursor to position 2 (between 'a' and 'l')
    app.edit.cursor = 2;

    // Insert another unicode character
    app.handle_key_event(Key::Char('ö'));
    assert_eq!(app.edit.text, "Haölloü");
    assert_eq!(app.edit.cursor, 3);
}

#[test]
fn main_test_unicode_backspace_and_delete() {
    let date = Date::from_ymd_opt(2025, 8, 14).unwrap();
    let mut todo_list = TodoList::new(date);
    todo_list
        .items
        .push(TodoItem::new("Test".to_string(), false, 0));

    let mut app = App {
        todo_list: TodoApp::new(todo_list),
        selected_index: 0,
        mode: AppMode::Edit,
        edit: EditBuffer {
            text: "Hällö Wörld".to_string(), // Contains umlauts
            cursor: 5,                       // After the ö in "Hällö"
        },
        should_quit: false,
    };

    // Test backspace on unicode character (should remove 'ö')
    app.handle_key_event(Key::Backspace);
    assert_eq!(app.edit.text, "Häll Wörld");
    assert_eq!(app.edit.cursor, 4);

    // Move cursor to position after 'ö' in "Wörld" (character position 7)
    app.edit.cursor = 7; // After 'ö' in "Wörld"

    // Test delete on unicode character (should remove 'r')
    app.handle_key_event(Key::Delete);
    assert_eq!(app.edit.text, "Häll Wöld");
    assert_eq!(app.edit.cursor, 7);
}

#[test]
fn main_test_unicode_cursor_movement() {
    let date = Date::from_ymd_opt(2025, 8, 14).unwrap();
    let mut todo_list = TodoList::new(date);
    todo_list
        .items
        .push(TodoItem::new("Test".to_string(), false, 0));

    let mut app = App {
        todo_list: TodoApp::new(todo_list),
        selected_index: 0,
        mode: AppMode::Edit,
        edit: EditBuffer {
            text: "Ümlaut test".to_string(), // Starts with umlaut
            cursor: 0,
        },
        should_quit: false,
    };

    // Move right from start (should move past 'Ü')
    app.handle_key_event(Key::Right);
    assert_eq!(app.edit.cursor, 1);

    // Move to end
    app.handle_key_event(Key::End);
    assert_eq!(app.edit.cursor, app.edit.text.chars().count());

    // Move to home
    app.handle_key_event(Key::Home);
    assert_eq!(app.edit.cursor, 0);
}
