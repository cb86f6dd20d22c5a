use tasklist::placement::{
    classify, finish, insert_at, place_with_keys, Command, KeyPress, Phase, Placement,
};
use tasklist::task::Task;

fn task(d: &str) -> Task {
    Task::new(d.to_string(), None)
}

fn descriptions(ts: &[Task]) -> Vec<String> {
    ts.iter().map(|t| t.description.clone()).collect()
}

#[test]
fn move_down_twice_then_confirm_appends() {
    let keys = vec![KeyPress::Char('j'), KeyPress::Char('j'), KeyPress::Enter];
    let mut s = Placement::start(2);
    s = s.press(keys[0]);
    s = s.press(keys[1]);
    assert_eq!(s.cursor, 2);
    let r = place_with_keys(vec![task("A"), task("B")], task("C"), &keys);
    assert_eq!(descriptions(&r), vec!["A", "B", "C"]);
}

#[test]
fn confirm_at_start_puts_task_first() {
    let r = place_with_keys(vec![task("A"), task("B")], task("C"), &vec![KeyPress::Enter]);
    assert_eq!(descriptions(&r), vec!["C", "A", "B"]);
}

#[test]
fn move_down_then_cancel_keeps_list() {
    let keys = vec![KeyPress::Char('j'), KeyPress::Esc];
    let r = place_with_keys(vec![task("A"), task("B")], task("C"), &keys);
    assert_eq!(descriptions(&r), vec!["A", "B"]);
}

#[test]
fn commit_in_the_middle() {
    let keys = vec![KeyPress::Char('j'), KeyPress::Enter];
    let r = place_with_keys(vec![task("A"), task("B")], task("C"), &keys);
    assert_eq!(descriptions(&r), vec!["A", "C", "B"]);
}

#[test]
fn commit_into_empty_list() {
    let r = place_with_keys(Vec::new(), task("C"), &vec![KeyPress::Char('j'), KeyPress::Enter]);
    assert_eq!(descriptions(&r), vec!["C"]);
}

#[test]
fn cursor_stops_at_both_ends() {
    let s = Placement::start(2);
    assert_eq!(s.step(Command::MoveUp), s);
    let end = s.step(Command::MoveDown).step(Command::MoveDown);
    assert_eq!(end.cursor, 2);
    assert_eq!(end.step(Command::MoveDown), end);
    assert_eq!(end.step(Command::MoveUp).cursor, 1);
}

#[test]
fn other_keys_are_ignored() {
    let s = Placement::start(3).press(KeyPress::Char('j'));
    assert_eq!(s.press(KeyPress::Char('x')), s);
    assert_eq!(s.press(KeyPress::Other), s);
    assert_eq!(classify(KeyPress::Char('J')), Command::Ignore);
    assert_eq!(classify(KeyPress::Char('k')), Command::MoveUp);
    assert_eq!(classify(KeyPress::Esc), Command::Cancel);
}

#[test]
fn finished_session_does_not_move() {
    let done = Placement::start(2).press(KeyPress::Enter);
    assert!(done.is_finished());
    assert_eq!(done.phase, Phase::Committed);
    assert_eq!(done.press(KeyPress::Char('j')), done);
    assert_eq!(done.press(KeyPress::Esc), done);
}

#[test]
fn keys_after_the_end_change_nothing() {
    let keys = vec![KeyPress::Enter, KeyPress::Char('j'), KeyPress::Esc];
    let r = place_with_keys(vec![task("A")], task("C"), &keys);
    assert_eq!(descriptions(&r), vec!["C", "A"]);
}

#[test]
fn run_out_of_keys_keeps_list() {
    let r = place_with_keys(vec![task("A")], task("C"), &vec![KeyPress::Char('j')]);
    assert_eq!(descriptions(&r), vec!["A"]);
}

#[test]
fn finish_and_insert_at() {
    let s = Placement { cursor: 1, len: 2, phase: Phase::Aborted };
    assert_eq!(descriptions(&finish(vec![task("A"), task("B")], task("C"), s)), vec!["A", "B"]);
    let s = Placement { cursor: 1, len: 2, phase: Phase::Committed };
    assert_eq!(descriptions(&finish(vec![task("A"), task("B")], task("C"), s)), vec!["A", "C", "B"]);
    assert_eq!(descriptions(&insert_at(vec![task("A")], 1, task("Z"))), vec!["A", "Z"]);
}
