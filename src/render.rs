use vstd::prelude::*;
use vstd::string::*;
use crate::task::Task;

verus! {

pub open spec fn header_text() -> Seq<char> {
    "Use 'j' (down), 'k' (up), Enter to insert, Esc to cancel:"@
}

pub open spec fn end_label() -> Seq<char> {
    "[insert at end]"@
}

pub open spec fn pending_label() -> Seq<char> {
    "New task: "@
}

/// What starts a slot's line: an arrow on the cursor's slot, blanks elsewhere.
pub open spec fn marker(here: bool) -> Seq<char> {
    if here {
        "> "@
    } else {
        "  "@
    }
}

/// The line of slot `i`: the task that stands there, or the end label for
/// the slot after the last task.
pub open spec fn slot_line(tasks: Seq<Task>, cursor: int, i: int) -> Seq<char> {
    if i < tasks.len() {
        marker(i == cursor) + tasks[i].description@
    } else {
        marker(i == cursor) + end_label()
    }
}

fn marker_for(here: bool) -> (r: String)
    ensures
        r@ == marker(here),
{
    if here {
        String::from_str("> ")
    } else {
        String::from_str("  ")
    }
}

/// The lines of one screen: a header, one line for each of the `len + 1`
/// slots with the cursor's slot marked, and the pending task's description.
pub fn frame_lines(tasks: &Vec<Task>, cursor: usize, pending: &Task) -> (r: Vec<String>)
    requires
        tasks@.len() + 3 <= usize::MAX,
    ensures
        r@.len() == tasks@.len() + 3,
        r@[0]@ == header_text(),
        forall|i: int|
            0 <= i <= tasks@.len() ==> #[trigger] r@[i + 1]@ == slot_line(
                tasks@,
                cursor as int,
                i,
            ),
        r@[tasks@.len() + 2int]@ == pending_label() + pending.description@,
{
    let mut lines: Vec<String> = Vec::new();
    lines.push(String::from_str("Use 'j' (down), 'k' (up), Enter to insert, Esc to cancel:"));
    let mut i: usize = 0;
    while i < tasks.len()
        invariant
            0 <= i <= tasks@.len(),
            lines@.len() == i + 1,
            lines@[0]@ == header_text(),
            forall|j: int| 0 <= j < i ==> #[trigger] lines@[j + 1]@ == slot_line(
                tasks@,
                cursor as int,
                j,
            ),
        decreases tasks@.len() - i,
    {
        let line = marker_for(i == cursor).concat(tasks[i].description.as_str());
        lines.push(line);
        i = i + 1;
    }
    let end = marker_for(i == cursor).concat("[insert at end]");
    lines.push(end);
    let last = String::from_str("New task: ").concat(pending.description.as_str());
    lines.push(last);
    lines
}

} // verus!
