use vstd::prelude::*;

verus! {

/// What a task is, as plain values: its description and its optional due date.
pub type TaskView = (Seq<char>, Option<Seq<char>>);

/// The text held by an optional string, if there is one.
pub open spec fn opt_text(o: Option<String>) -> Option<Seq<char>> {
    match o {
        Some(s) => Some(s@),
        None => None,
    }
}

/// One entry of the task list.
#[derive(Debug, Clone)]
pub struct Task {
    pub description: String,
    pub due_date: Option<String>,
}

impl View for Task {
    type V = TaskView;

    open spec fn view(&self) -> TaskView {
        (self.description@, opt_text(self.due_date))
    }
}

/// The views of a sequence of tasks, in order.
pub open spec fn tasks_view(ts: Seq<Task>) -> Seq<TaskView> {
    ts.map_values(|t: Task| t@)
}

impl Task {
    pub fn new(description: String, due_date: Option<String>) -> (r: Task)
        ensures
            r.description == description,
            r.due_date == due_date,
    {
        Task { description, due_date }
    }
}

} // verus!
