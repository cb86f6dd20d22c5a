use vstd::prelude::*;
use vstd::string::*;
use crate::task::Task;

verus! {

/// The description that ends a session instead of naming a task: `q`, in
/// either case.
pub open spec fn is_quit_text(s: Seq<char>) -> bool {
    s.len() == 1 && (s[0] == 'q' || s[0] == 'Q')
}

/// The due date that an answer gives: none for an empty answer.
pub open spec fn due_date_of(answer: String) -> Option<String> {
    if answer@.len() == 0 {
        None
    } else {
        Some(answer)
    }
}

/// Whether a description asks to stop rather than name a task.
pub fn is_quit_token(description: &str) -> (r: bool)
    ensures
        r == is_quit_text(description@),
{
    if description.unicode_len() != 1 {
        return false;
    }
    let c = description.get_char(0);
    c == 'q' || c == 'Q'
}

/// Reads the answer to the due-date question.
pub fn due_date_from(answer: String) -> (r: Option<String>)
    ensures
        r == due_date_of(answer),
{
    if answer.as_str().is_empty() {
        None
    } else {
        Some(answer)
    }
}

/// Builds the task that the user typed in, or nothing when the description
/// is the quit token.
pub fn create_new_task(description: String, due_answer: String) -> (r: Option<Task>)
    ensures
        is_quit_text(description@) ==> r is None,
        !is_quit_text(description@) ==> r == Some(
            Task { description, due_date: due_date_of(due_answer) },
        ),
{
    if is_quit_token(description.as_str()) {
        None
    } else {
        Some(Task { description, due_date: due_date_from(due_answer) })
    }
}

} // verus!
