use todui::date::Date;
use todui::markdown::InvalidFormat;
use todui::model::{TodoItem, TodoList};
use todui::store::{
    choose_file, date_part, load_or_create_todo_list, scan_file_names, todo_file_date,
};
use todui::todo_app::TodoApp;

fn date(year: i32, month: u32, day: u32) -> Date {
    Date::from_ymd_opt(year, month, day).unwrap()
}

fn names(names: &[&str]) -> Vec<String> {
    names.iter().map(|n| n.to_string()).collect()
}

#[test]
fn files_date_part_is_what_stands_between_head_and_tail() {
    assert_eq!(date_part("TODO-2025-08-14.md"), Some("2025-08-14".to_string()));
    assert_eq!(date_part("TODO-.md"), Some("".to_string()));
    assert_eq!(date_part("TODO-x.md"), Some("x".to_string()));
    assert_eq!(date_part("TODO-ü.md.md"), Some("ü.md".to_string()));
}

#[test]
fn files_date_part_needs_head_and_tail() {
    for name in [
        "",
        "TODO",
        "TODO-",
        ".md",
        "TODO-md",
        "TODO.md",
        "TODO-2025-08-14",
        "TODO-2025-08-14.txt",
        "todo-2025-08-14.md",
        "TODO-2025-08-14.MD",
        " TODO-2025-08-14.md",
        "TODO-2025-08-14.md ",
        "lockfile",
    ] {
        assert_eq!(date_part(name), None);
    }
}

#[test]
fn files_todo_file_date_reads_the_day() {
    assert_eq!(todo_file_date("TODO-2025-08-14.md"), Some(date(2025, 8, 14)));
    assert_eq!(todo_file_date("TODO-2025-8-4.md"), Some(date(2025, 8, 4)));
    assert_eq!(todo_file_date("TODO-2025-02-30.md"), None);
    assert_eq!(todo_file_date("TODO-.md"), None);
    assert_eq!(todo_file_date("TODO-notes.md"), None);
    assert_eq!(todo_file_date("notes.md"), None);
}

#[test]
fn files_name_of_a_list_names_its_day() {
    for d in [date(2025, 8, 14), date(1, 1, 1), date(12345, 6, 7), date(-44, 3, 15)] {
        assert_eq!(todo_file_date(&TodoList::new(d).filename()), Some(d));
    }
}

#[test]
fn files_scan_chooses_the_newest_that_is_not_after_today() {
    let scan = scan_file_names(
        &names(&[
            "TODO-2025-08-10.md",
            "lockfile",
            "TODO-2025-08-13.md",
            "TODO-2025-08-12.md",
            "TODO-2025-08-20.md",
            "TODO-2024-12-31.md",
            "TODO-2026-01-01.md",
        ]),
        date(2025, 8, 14),
    );
    assert_eq!(scan.chosen, Some(2));
    assert_eq!(scan.future, vec![4, 6]);
}

#[test]
fn files_scan_takes_the_file_of_today() {
    let scan = scan_file_names(
        &names(&["TODO-2025-08-14.md", "TODO-2025-08-13.md", "TODO-2025-08-15.md"]),
        date(2025, 8, 14),
    );
    assert_eq!(scan.chosen, Some(0));
    assert_eq!(scan.future, vec![2]);
}

#[test]
fn files_scan_takes_the_first_of_two_names_of_one_day() {
    let scan = scan_file_names(
        &names(&["TODO-2025-08-01.md", "TODO-2025-8-13.md", "TODO-2025-08-13.md"]),
        date(2025, 8, 14),
    );
    assert_eq!(scan.chosen, Some(1));
    assert_eq!(scan.future, Vec::<usize>::new());
}

#[test]
fn files_scan_finds_nothing_to_start_from() {
    let today = date(2025, 8, 14);
    let scan = scan_file_names(&names(&[]), today);
    assert_eq!(scan.chosen, None);
    assert_eq!(scan.future, Vec::<usize>::new());
    let scan = scan_file_names(&names(&["lockfile", "TODO-draft.md", "TODO-2025-08-15.md"]), today);
    assert_eq!(scan.chosen, None);
    assert_eq!(scan.future, vec![2]);
}

#[test]
fn files_choose_file_works_on_dates() {
    let dates = vec![
        None,
        Some(date(2025, 1, 1)),
        Some(date(2025, 3, 1)),
        Some(date(2025, 2, 1)),
        Some(date(2025, 3, 1)),
        None,
        Some(date(2025, 3, 2)),
    ];
    let scan = choose_file(&dates, date(2025, 3, 1));
    assert_eq!(scan.chosen, Some(2));
    assert_eq!(scan.future, vec![6]);
    let scan = choose_file(&dates, date(2024, 12, 31));
    assert_eq!(scan.chosen, None);
    assert_eq!(scan.future, vec![1, 2, 3, 4, 6]);
    let scan = choose_file(&dates, date(2030, 1, 1));
    assert_eq!(scan.chosen, Some(6));
    assert_eq!(scan.future, Vec::<usize>::new());
}

#[test]
fn files_load_carries_the_items_over_to_today() {
    let today = date(2025, 8, 14);
    let list = load_or_create_todo_list(
        Some("# TODO 2025-08-10\n\n* [x] done\n  * [ ] open\n"),
        today,
    )
    .unwrap();
    assert_eq!(list.date, today);
    assert_eq!(list.items.len(), 2);
    assert_eq!(list.items[0].text, "done");
    assert_eq!(list.items[0].completed, true);
    assert_eq!(list.items[1].text, "open");
    assert_eq!(list.items[1].indent_level, 1);
}

#[test]
fn files_load_without_a_file_starts_empty() {
    let today = date(2025, 8, 14);
    let list = load_or_create_todo_list(None, today).unwrap();
    assert_eq!(list.date, today);
    assert_eq!(list.items.len(), 0);
}

#[test]
fn files_load_refuses_a_file_without_header() {
    let today = date(2025, 8, 14);
    assert_eq!(
        load_or_create_todo_list(Some(""), today).err(),
        Some(InvalidFormat::Empty)
    );
    assert_eq!(
        load_or_create_todo_list(Some("* [ ] a\n"), today).err(),
        Some(InvalidFormat::Header)
    );
    assert_eq!(
        load_or_create_todo_list(Some("# TODO soon\n"), today).err(),
        Some(InvalidFormat::Date)
    );
}

#[test]
fn files_save_dates_the_list_today() {
    let mut list = TodoList::new(date(2025, 8, 10));
    list.items.push(TodoItem::new("carry".to_string(), false, 1));
    let mut app = TodoApp::new(list);
    let file = app.save_todo_list(date(2025, 8, 14));
    assert_eq!(file.name, "TODO-2025-08-14.md");
    assert_eq!(file.content, "# TODO 2025-08-14\n\n  * [ ] carry\n");
    assert_eq!(app.todo_list.date, date(2025, 8, 14));
    assert_eq!(app.todo_list.items.len(), 1);
}

#[test]
fn files_saved_list_is_loaded_again() {
    let mut list = TodoList::new(date(2025, 8, 10));
    list.items.push(TodoItem::new("one".to_string(), true, 0));
    list.items.push(TodoItem::new("two".to_string(), false, 2));
    let mut app = TodoApp::new(list);
    let file = app.save_todo_list(date(2025, 8, 14));
    let scan = scan_file_names(&vec![file.name.clone()], date(2025, 8, 15));
    assert_eq!(scan.chosen, Some(0));
    let loaded = load_or_create_todo_list(Some(&file.content), date(2025, 8, 15)).unwrap();
    assert_eq!(loaded.date, date(2025, 8, 15));
    assert_eq!(loaded.items.len(), 2);
    assert_eq!(loaded.items[1].text, "two");
    assert_eq!(loaded.items[1].indent_level, 2);
}
