use task_cli::command::{same_text, Operation};
use task_cli::listing::{filter_matches, list_lines, listing_header, render_tasks, rule_line, task_line, Filter};
use task_cli::store::{add_task, blank_text, complete_task, load_store, remove_task, vec_to_map, LoadError, TaskNotFound, TaskStore};
use task_cli::task::{Task, COMPLETED, PENDING};

fn task(time: u64, description: &str, status: char) -> Task {
    Task { time, description: description.to_string(), status }
}

fn summary(store: TaskStore) -> Vec<(String, char)> {
    store.into_records().into_iter().map(|t| (t.description, t.status)).collect()
}

#[test]
fn new_task_is_pending() {
    let t = Task::new("buy milk".to_string());
    assert_eq!(t.description, "buy milk");
    assert_eq!(t.status, PENDING);
    assert!(!t.is_completed());
}

#[test]
fn complete_marks_completed_and_is_idempotent() {
    let mut t = task(5, "x", PENDING);
    t.complete();
    assert_eq!(t.status, COMPLETED);
    t.complete();
    assert_eq!(t.status, COMPLETED);
    assert_eq!(t.time, 5);
    assert_eq!(t.description, "x");
}

#[test]
fn tasks_compare_by_creation_marker_only() {
    let a = task(1, "same", PENDING);
    let b = task(2, "same", PENDING);
    let c = task(1, "other", COMPLETED);
    assert!(a < b);
    assert!(a == c);
    assert!(a != b);
}

#[test]
fn scenario_add_complete_remove_reload_list() {
    let s = TaskStore::new();
    let s = add_task("buy milk".to_string(), s);
    assert_eq!(s.len(), 1);
    assert_eq!(s.get(1).unwrap().description, "buy milk");
    assert_eq!(s.get(1).unwrap().status, PENDING);
    let s = add_task("write spec".to_string(), s);
    assert_eq!(s.len(), 2);
    assert_eq!(s.get(2).unwrap().description, "write spec");
    let s = complete_task(1, s).unwrap();
    assert_eq!(s.get(1).unwrap().status, COMPLETED);
    let s = remove_task(1, s);
    assert_eq!(s.len(), 1);
    let records = s.into_records();
    let reloaded = vec_to_map(records);
    assert_eq!(reloaded.get(1).unwrap().description, "write spec");
    assert_eq!(list_lines(&reloaded, Filter::Pending), vec!["1 - write spec [ ]".to_string()]);
}

#[test]
fn adds_then_list_all_gives_one_line_each_in_order() {
    let mut s = TaskStore::new();
    for d in ["a", "b", "c"] {
        s = add_task(d.to_string(), s);
    }
    assert_eq!(
        list_lines(&s, Filter::All),
        vec!["1 - a [ ]".to_string(), "2 - b [ ]".to_string(), "3 - c [ ]".to_string()]
    );
}

#[test]
fn save_then_load_keeps_records_and_order() {
    let records = vec![task(10, "one", PENDING), task(20, "two", COMPLETED), task(30, "three", PENDING)];
    let store = vec_to_map(records);
    let saved = store.into_records();
    let loaded = load_store("[...]", Some(saved)).unwrap();
    assert_eq!(loaded.get(2).unwrap().time, 20);
    assert_eq!(
        summary(loaded),
        vec![("one".to_string(), PENDING), ("two".to_string(), COMPLETED), ("three".to_string(), PENDING)]
    );
}

#[test]
fn complete_twice_is_no_error() {
    let s = vec_to_map(vec![task(1, "a", PENDING), task(2, "b", PENDING)]);
    let s = complete_task(2, s).unwrap();
    let s = complete_task(2, s).unwrap();
    assert_eq!(summary(s), vec![("a".to_string(), PENDING), ("b".to_string(), COMPLETED)]);
}

#[test]
fn remove_absent_identifier_changes_nothing() {
    let s = vec_to_map(vec![task(1, "a", PENDING), task(2, "b", COMPLETED)]);
    let s = remove_task(0, s);
    let s = remove_task(3, s);
    assert_eq!(summary(s), vec![("a".to_string(), PENDING), ("b".to_string(), COMPLETED)]);
}

#[test]
fn remove_shifts_later_identifiers() {
    let s = vec_to_map(vec![task(1, "a", PENDING), task(2, "b", PENDING), task(3, "c", PENDING)]);
    let s = remove_task(2, s);
    assert_eq!(s.get(2).unwrap().description, "c");
    assert!(s.get(3).is_none());
}

#[test]
fn complete_absent_identifier_is_not_found() {
    let s = vec_to_map(vec![task(1, "a", PENDING)]);
    assert_eq!(complete_task(2, s).err(), Some(TaskNotFound { id: 2 }));
    let s = TaskStore::new();
    assert_eq!(complete_task(0, s).err(), Some(TaskNotFound { id: 0 }));
}

#[test]
fn add_uses_identifier_one_past_count() {
    let s = vec_to_map(vec![task(1, "a", PENDING), task(2, "b", PENDING)]);
    let s = add_task("c".to_string(), s);
    assert_eq!(s.get(3).unwrap().description, "c");
    assert_eq!(s.get(3).unwrap().status, PENDING);
}

#[test]
fn load_blank_text_is_empty_store() {
    assert_eq!(load_store("", None).unwrap().len(), 0);
    assert_eq!(load_store(" \n\t\r ", None).unwrap().len(), 0);
    assert!(blank_text(""));
    assert!(!blank_text(" x "));
}

#[test]
fn load_malformed_text_fails() {
    assert_eq!(load_store("[{\"time\":", None).err(), Some(LoadError::Malformed));
    assert_eq!(load_store("garbage", None).err(), Some(LoadError::Malformed));
}

#[test]
fn filters_select_by_status() {
    let s = vec_to_map(vec![task(1, "a", PENDING), task(2, "b", COMPLETED), task(3, "c", PENDING)]);
    assert_eq!(list_lines(&s, Filter::Completed), vec!["2 - b [\u{2713}]".to_string()]);
    assert_eq!(list_lines(&s, Filter::Pending), vec!["1 - a [ ]".to_string(), "3 - c [ ]".to_string()]);
    assert_eq!(list_lines(&s, Filter::All).len(), 3);
    assert!(filter_matches(Filter::All, 'z'));
    assert!(!filter_matches(Filter::Pending, COMPLETED));
}

#[test]
fn task_line_formats_identifier_description_and_glyph() {
    assert_eq!(task_line(12, &task(0, "write spec", COMPLETED)), "12 - write spec [\u{2713}]");
    assert_eq!(task_line(7, &task(0, "", PENDING)), "7 -  [ ]");
}

#[test]
fn header_and_rule() {
    assert_eq!(listing_header(Filter::All), "Task (filter: none)");
    assert_eq!(listing_header(Filter::Pending), "Task (filter: pending)");
    assert_eq!(listing_header(Filter::Completed), "Task (filter: completed)");
    assert_eq!(rule_line(3), "\u{2500}\u{2500}\u{2500}");
    assert_eq!(rule_line(0), "");
}

#[test]
fn render_has_header_rule_and_lines() {
    let s = vec_to_map(vec![task(1, "a", PENDING)]);
    let out = render_tasks(&s, Filter::All);
    assert_eq!(out.len(), 3);
    assert_eq!(out[0], "Task (filter: none)");
    assert_eq!(out[1].chars().count(), 19);
    assert_eq!(out[2], "1 - a [ ]");
}

#[test]
fn names_parse() {
    assert_eq!(Operation::parse("add"), Some(Operation::Add));
    assert_eq!(Operation::parse("remove"), Some(Operation::Remove));
    assert_eq!(Operation::parse("complete"), Some(Operation::Complete));
    assert_eq!(Operation::parse("list"), Some(Operation::List));
    assert_eq!(Operation::parse("lists"), None);
    assert_eq!(Filter::parse("none"), Some(Filter::All));
    assert_eq!(Filter::parse(""), Some(Filter::All));
    assert_eq!(Filter::parse("pending"), Some(Filter::Pending));
    assert_eq!(Filter::parse("completed"), Some(Filter::Completed));
    assert_eq!(Filter::parse("done"), None);
    assert_eq!("list".parse::<Operation>(), Ok(Operation::List));
    assert_eq!("x".parse::<Filter>(), Err("Could not parse filter"));
    assert!(same_text("abc", "abc"));
    assert!(!same_text("abc", "abd"));
}
