use tasklist::store::{load_tasks, records_of, save_tasks, tasks_from_records, StoreError};
use tasklist::task::Task;

fn sample() -> Vec<Task> {
    vec![
        Task::new("write report".to_string(), Some("monday".to_string())),
        Task::new("water plants".to_string(), None),
        Task::new("write report".to_string(), Some("monday".to_string())),
    ]
}

fn same(a: &[Task], b: &[Task]) -> bool {
    a.len() == b.len()
        && a.iter().zip(b).all(|(x, y)| x.description == y.description && x.due_date == y.due_date)
}

#[test]
fn saved_text_loads_back() {
    let ts = sample();
    let text = save_tasks(&ts);
    let back = load_tasks(Some(text)).unwrap();
    assert!(same(&back, &ts));
}

#[test]
fn empty_list_round_trips() {
    let text = save_tasks(&Vec::new());
    assert!(load_tasks(Some(text)).unwrap().is_empty());
}

#[test]
fn missing_store_loads_empty() {
    assert!(load_tasks(None).unwrap().is_empty());
}

#[test]
fn empty_store_loads_empty() {
    assert!(load_tasks(Some(String::new())).unwrap().is_empty());
}

#[test]
fn corrupt_store_is_refused() {
    assert_eq!(load_tasks(Some("[{not json".to_string())).unwrap_err(), StoreError::Corrupt);
    assert_eq!(load_tasks(Some("42".to_string())).unwrap_err(), StoreError::Corrupt);
}

#[test]
fn stored_text_is_whitespace_insensitive() {
    let text = "[ [\"a\", null],\n [\"b\",\"soon\"] ]".to_string();
    let ts = load_tasks(Some(text)).unwrap();
    assert_eq!(ts.len(), 2);
    assert_eq!(ts[0].description, "a");
    assert_eq!(ts[0].due_date, None);
    assert_eq!(ts[1].due_date, Some("soon".to_string()));
}

#[test]
fn saved_text_is_json_not_the_input() {
    let text = save_tasks(&vec![Task::new("x".to_string(), None)]);
    assert!(text.contains("\"x\""));
    assert!(text.contains("null"));
    assert!(text.starts_with('['));
}

#[test]
fn records_convert_both_ways() {
    let ts = sample();
    let recs = records_of(&ts);
    assert_eq!(recs[0], ("write report".to_string(), Some("monday".to_string())));
    assert!(same(&tasks_from_records(&recs), &ts));
}
