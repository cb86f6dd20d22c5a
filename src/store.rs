use vstd::prelude::*;
use crate::task::{opt_text, tasks_view, Task, TaskView};

verus! {

/// The form in which a task is written to the store: its description and
/// its due date, or null where it has none.
pub type Record = (String, Option<String>);

/// The text that `serde_json::to_string_pretty` writes for these records.
pub uninterp spec fn pretty_json_of(records: Seq<(Seq<char>, Option<Seq<char>>)>) -> Seq<char>;

/// The records that `serde_json::from_str` reads from this text, or none
/// where the text is no JSON array of such records.
pub uninterp spec fn records_in_json(text: Seq<char>) -> Option<Seq<(Seq<char>, Option<Seq<char>>)>>;

pub open spec fn record_view(r: Record) -> TaskView {
    (r.0@, opt_text(r.1))
}

pub open spec fn records_view(rs: Seq<Record>) -> Seq<TaskView> {
    rs.map_values(|r: Record| record_view(r))
}

/// Why the store's text could not be turned into tasks.
#[derive(Debug, Clone, Copy, PartialEq, Eq, Structural)]
pub enum StoreError {
    /// The text is there but holds no list of tasks.
    Corrupt,
}

/// The tasks that the stored text holds: none where nothing is stored,
/// else what the JSON text holds; an empty text, which holds no JSON value,
/// counts as an empty list, and any other text that holds no list of tasks
/// holds nothing.
pub open spec fn stored_tasks(stored: Option<Seq<char>>) -> Option<Seq<TaskView>> {
    match stored {
        None => Some(Seq::empty()),
        Some(text) => match records_in_json(text) {
            Some(rs) => Some(rs),
            None => if text.len() == 0 {
                Some(Seq::empty())
            } else {
                None
            },
        },
    }
}

/// Relies on serde_json::to_string_pretty: the text that it writes for a
/// list of records depends on the records alone, and it fails only where a
/// `Serialize` impl fails or a map has keys that are not strings, which
/// strings, options, pairs and vectors never give.
#[verifier::external_body]
fn records_to_json(records: &Vec<Record>) -> (r: Option<String>)
    ensures
        r is Some,
        r->0@ == pretty_json_of(records_view(records@)),
{
    serde_json::to_string_pretty(records).ok()
}

/// Relies on serde_json::from_str: whether the text holds a JSON array of
/// `[text, text or null]` pairs, and which, depends on the text alone.
#[verifier::external_body]
fn records_from_json(text: &str) -> (r: Option<Vec<Record>>)
    ensures
        r is Some <==> records_in_json(text@) is Some,
        r is Some ==> records_in_json(text@) == Some(records_view(r->0@)),
{
    serde_json::from_str(text).ok()
}

fn copy_text(o: &Option<String>) -> (r: Option<String>)
    ensures
        opt_text(r) == opt_text(*o),
{
    match o {
        Some(s) => Some(s.clone()),
        None => None,
    }
}

/// The records that stand for the tasks, in order.
pub fn records_of(tasks: &Vec<Task>) -> (r: Vec<Record>)
    ensures
        records_view(r@) == tasks_view(tasks@),
{
    let mut out: Vec<Record> = Vec::new();
    let mut i: usize = 0;
    while i < tasks.len()
        invariant
            0 <= i <= tasks@.len(),
            out@.len() == i,
            forall|k: int| 0 <= k < i ==> record_view(#[trigger] out@[k]) == tasks@[k]@,
        decreases tasks@.len() - i,
    {
        let t = &tasks[i];
        out.push((t.description.clone(), copy_text(&t.due_date)));
        i = i + 1;
    }
    assert(records_view(out@) =~= tasks_view(tasks@));
    out
}

/// The tasks that the records stand for, in order.
pub fn tasks_from_records(records: &Vec<Record>) -> (r: Vec<Task>)
    ensures
        tasks_view(r@) == records_view(records@),
{
    let mut out: Vec<Task> = Vec::new();
    let mut i: usize = 0;
    while i < records.len()
        invariant
            0 <= i <= records@.len(),
            out@.len() == i,
            forall|k: int| 0 <= k < i ==> (#[trigger] out@[k])@ == record_view(records@[k]),
        decreases records@.len() - i,
    {
        let rec = &records[i];
        out.push(Task { description: rec.0.clone(), due_date: copy_text(&rec.1) });
        i = i + 1;
    }
    assert(tasks_view(out@) =~= records_view(records@));
    out
}

/// The text to store for the tasks: a pretty-printed JSON array with one
/// `[description, due date or null]` pair for each task, in order.
pub fn save_tasks(tasks: &Vec<Task>) -> (r: String)
    ensures
        r@ == pretty_json_of(tasks_view(tasks@)),
{
    let records = records_of(tasks);
    records_to_json(&records).unwrap()
}

/// The tasks held by what the store holds: `None` where nothing is stored.
/// A missing or empty store holds no tasks; text that holds no list of
/// tasks is refused, so that nothing stored is lost without a word.
pub fn load_tasks(stored: Option<String>) -> (r: Result<Vec<Task>, StoreError>)
    ensures
        match r {
            Ok(v) => stored_tasks(opt_text(stored)) == Some(tasks_view(v@)),
            Err(e) => e == StoreError::Corrupt && stored_tasks(opt_text(stored)) is None,
        },
{
    match stored {
        None => Ok(Vec::new()),
        Some(text) => match records_from_json(text.as_str()) {
            Some(records) => Ok(tasks_from_records(&records)),
            None => if text.as_str().is_empty() {
                Ok(Vec::new())
            } else {
                Err(StoreError::Corrupt)
            },
        },
    }
}

/// With nothing stored, loading gives an empty list and no error.
pub proof fn law_missing_store_is_empty()
    ensures
        stored_tasks(None) == Some(Seq::<TaskView>::empty()),
{
}

/// Wherever serde_json reads back the records it wrote, loading the saved
/// text of a list of tasks gives that list again, the empty one included.
pub proof fn law_load_reads_back_saved(ts: Seq<TaskView>)
    requires
        records_in_json(pretty_json_of(ts)) == Some(ts),
    ensures
        stored_tasks(Some(pretty_json_of(ts))) == Some(ts),
{
}

} // verus!
