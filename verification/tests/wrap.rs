use todui::model::TodoItem;
use todui::wrap::{wrap_todo_item_text, CURSOR};

#[test]
fn main_test_wrap_todo_item_text_short() {
    let item = TodoItem::new("Short text".to_string(), false, 0);
    let wrapped = wrap_todo_item_text(&item, 50, false, "", 0, false);

    assert_eq!(wrapped.len(), 1);
    assert_eq!(wrapped[0].0, "* [ ] Short text");
    assert_eq!(wrapped[0].1, true);
}

#[test]
fn main_test_wrap_todo_item_text_long() {
    let item = TodoItem::new(
        "This is a very long todo item that should wrap".to_string(),
        false,
        0,
    );
    let wrapped = wrap_todo_item_text(&item, 20, false, "", 0, false);

    assert!(wrapped.len() > 1);
    assert!(wrapped[0].0.starts_with("* [ ] This"));
    assert!(wrapped[1].0.starts_with("   ")); // continuation line should be indented
    assert_eq!(wrapped[0].1, true); // first line is main line
    assert_eq!(wrapped[1].1, false); // continuation line is not main line
}

#[test]
fn main_test_wrap_todo_item_text_nested() {
    let item = TodoItem::new(
        "Long nested item text that should wrap properly".to_string(),
        true,
        1,
    );
    let wrapped = wrap_todo_item_text(&item, 25, false, "", 0, false);

    assert!(wrapped.len() > 1);
    assert!(wrapped[0].0.starts_with("  * [x] Long"));
    assert!(wrapped[1].0.starts_with("     ")); // continuation should align with text
}

#[test]
fn main_test_wrap_todo_item_text_editing() {
    let item = TodoItem::new("Original text".to_string(), false, 0);
    let edit_text = "Edited very long text that needs wrapping";
    let wrapped = wrap_todo_item_text(&item, 20, true, edit_text, 10, true);

    assert!(wrapped.len() > 1);
    assert!(wrapped[0].0.contains(CURSOR)); // Should contain cursor
    assert!(wrapped[0].0.starts_with("* [ ] Edited"));
}

#[test]
fn main_test_unicode_display_with_cursor() {
    let item = TodoItem::new("Test".to_string(), false, 0);
    let edit_text = "Hallö";
    let edit_cursor = 4; // After 'l', before 'ö'

    let wrapped = wrap_todo_item_text(&item, 50, true, edit_text, edit_cursor, true);

    assert_eq!(wrapped.len(), 1);
    let term = format!("Hall{}ö", CURSOR);
    assert!(wrapped[0].0.contains(&term)); // Cursor should be positioned correctly
}

#[test]
fn mod_test_wrap_todo_item_text_editing() {
    let item = TodoItem::new("Original text".to_string(), false, 0);
    let edit_text = "Edited very long text that needs wrapping";
    let wrapped = wrap_todo_item_text(&item, 20, true, edit_text, 10, true);

    assert!(wrapped.len() > 1);
    assert!(wrapped[0].0.contains(CURSOR)); // Should contain cursor
    assert!(wrapped[0].0.starts_with("* [ ] Edited"));
}

#[test]
fn mod_test_wrap_todo_item_text_short() {
    let item = TodoItem::new("Short text".to_string(), false, 0);
    let wrapped = wrap_todo_item_text(&item, 50, false, "", 0, false);

    assert_eq!(wrapped.len(), 1);
    assert_eq!(wrapped[0].0, "* [ ] Short text");
    assert_eq!(wrapped[0].1, true);
}

#[test]
fn mod_test_wrap_todo_item_text_long() {
    let item = TodoItem::new(
        "This is a very long todo item that should wrap".to_string(),
        false,
        0,
    );
    let wrapped = wrap_todo_item_text(&item, 20, false, "", 0, false);

    assert!(wrapped.len() > 1);
    assert!(wrapped[0].0.starts_with("* [ ] This"));
    assert!(wrapped[1].0.starts_with("   ")); // continuation line should be indented
    assert_eq!(wrapped[0].1, true); // first line is main line
    assert_eq!(wrapped[1].1, false); // continuation line is not main line
}

#[test]
fn mod_test_wrap_todo_item_text_nested() {
    let item = TodoItem::new(
        "Long nested item text that should wrap properly".to_string(),
        true,
        1,
    );
    let wrapped = wrap_todo_item_text(&item, 25, false, "", 0, false);

    assert!(wrapped.len() > 1);
    assert!(wrapped[0].0.starts_with("  * [x] Long"));
    assert!(wrapped[1].0.starts_with("     ")); // continuation should align with text
}

#[test]
fn mod_test_unicode_display_with_cursor() {
    let item = TodoItem::new("Test".to_string(), false, 0);
    let edit_text = "Hallö";
    let edit_cursor = 4; // After 'l', before 'ö'

    let wrapped = wrap_todo_item_text(&item, 50, true, edit_text, edit_cursor, true);

    assert_eq!(wrapped.len(), 1);
    let term = format!("Hall{}ö", CURSOR);
    assert!(wrapped[0].0.contains(&term)); // Cursor should be positioned correctly
}
