use vstd::prelude::*;
use crate::task::Task;

verus! {

/// A key press as the placement session sees it.
#[derive(Debug, Clone, Copy, PartialEq, Eq, Structural)]
pub enum KeyPress {
    Char(char),
    Enter,
    Esc,
    Other,
}

/// What a key press asks of the placement session.
#[derive(Debug, Clone, Copy, PartialEq, Eq, Structural)]
pub enum Command {
    MoveDown,
    MoveUp,
    Confirm,
    Cancel,
    Ignore,
}

/// Where the placement session stands.
#[derive(Debug, Clone, Copy, PartialEq, Eq, Structural)]
pub enum Phase {
    Browsing,
    Committed,
    Aborted,
}

/// The command that a key press gives: `j` moves down, `k` moves up,
/// Enter confirms, Esc cancels, and every other key is ignored.
pub open spec fn command_of(key: KeyPress) -> Command {
    match key {
        KeyPress::Char(c) => if c == 'j' {
            Command::MoveDown
        } else if c == 'k' {
            Command::MoveUp
        } else {
            Command::Ignore
        },
        KeyPress::Enter => Command::Confirm,
        KeyPress::Esc => Command::Cancel,
        KeyPress::Other => Command::Ignore,
    }
}

pub fn classify(key: KeyPress) -> (r: Command)
    ensures
        r == command_of(key),
{
    match key {
        KeyPress::Char(c) => if c == 'j' {
            Command::MoveDown
        } else if c == 'k' {
            Command::MoveUp
        } else {
            Command::Ignore
        },
        KeyPress::Enter => Command::Confirm,
        KeyPress::Esc => Command::Cancel,
        KeyPress::Other => Command::Ignore,
    }
}

/// The state of one placement session over a list of `len` tasks: the
/// cursor names an insertion slot, slot `i` lying just before the task at
/// index `i` and slot `len` at the end.
#[derive(Debug, Clone, Copy, PartialEq, Eq, Structural)]
pub struct Placement {
    pub cursor: usize,
    pub len: usize,
    pub phase: Phase,
}

/// The state after one command. Only a browsing session moves; the cursor
/// moves down while it is above the end and up while it is below the top.
pub open spec fn next_state(s: Placement, cmd: Command) -> Placement {
    if s.phase != Phase::Browsing {
        s
    } else {
        match cmd {
            Command::MoveDown => if s.cursor < s.len {
                Placement { cursor: (s.cursor + 1) as usize, ..s }
            } else {
                s
            },
            Command::MoveUp => if s.cursor > 0 {
                Placement { cursor: (s.cursor - 1) as usize, ..s }
            } else {
                s
            },
            Command::Confirm => Placement { phase: Phase::Committed, ..s },
            Command::Cancel => Placement { phase: Phase::Aborted, ..s },
            Command::Ignore => s,
        }
    }
}

/// The state after a run of key presses, taken in order.
pub open spec fn run_keys(s: Placement, keys: Seq<KeyPress>) -> Placement
    decreases keys.len(),
{
    if keys.len() == 0 {
        s
    } else {
        next_state(run_keys(s, keys.drop_last()), command_of(keys.last()))
    }
}

/// The list that a finished session leaves: the pending task stands at the
/// cursor's slot after a commit; otherwise the list is as it was.
pub open spec fn outcome(tasks: Seq<Task>, pending: Task, s: Placement) -> Seq<Task> {
    if s.phase == Phase::Committed {
        tasks.insert(s.cursor as int, pending)
    } else {
        tasks
    }
}

impl Placement {
    /// The cursor lies on one of the `len + 1` slots.
    pub open spec fn wf(self) -> bool {
        self.cursor <= self.len
    }

    /// A session over `len` tasks starts browsing at the top slot.
    pub open spec fn spec_start(len: usize) -> Placement {
        Placement { cursor: 0, len, phase: Phase::Browsing }
    }

    pub fn start(len: usize) -> (r: Placement)
        ensures
            r == Placement::spec_start(len),
            r.wf(),
    {
        Placement { cursor: 0, len, phase: Phase::Browsing }
    }

    pub fn is_finished(&self) -> (r: bool)
        ensures
            r == (self.phase != Phase::Browsing),
    {
        match self.phase {
            Phase::Browsing => false,
            _ => true,
        }
    }

    /// Applies one command.
    pub fn step(&self, cmd: Command) -> (r: Placement)
        requires
            self.wf(),
        ensures
            r == next_state(*self, cmd),
            r.wf(),
    {
        match self.phase {
            Phase::Browsing => match cmd {
                Command::MoveDown => if self.cursor < self.len {
                    Placement { cursor: self.cursor + 1, ..*self }
                } else {
                    *self
                },
                Command::MoveUp => if self.cursor > 0 {
                    Placement { cursor: self.cursor - 1, ..*self }
                } else {
                    *self
                },
                Command::Confirm => Placement { phase: Phase::Committed, ..*self },
                Command::Cancel => Placement { phase: Phase::Aborted, ..*self },
                Command::Ignore => *self,
            },
            _ => *self,
        }
    }

    /// Applies the command that a key press gives.
    pub fn press(&self, key: KeyPress) -> (r: Placement)
        requires
            self.wf(),
        ensures
            r == next_state(*self, command_of(key)),
            r.wf(),
    {
        self.step(classify(key))
    }
}

/// Puts `task` at index `pos`, moving the tasks from there on one place back.
pub fn insert_at(tasks: Vec<Task>, pos: usize, task: Task) -> (r: Vec<Task>)
    requires
        pos <= tasks@.len(),
    ensures
        r@ == tasks@.insert(pos as int, task),
{
    let mut tasks = tasks;
    tasks.insert(pos, task);
    tasks
}

/// Ends a session: commits the pending task at the cursor's slot, or hands
/// the list back untouched.
pub fn finish(tasks: Vec<Task>, pending: Task, state: Placement) -> (r: Vec<Task>)
    requires
        state.wf(),
        state.len == tasks@.len(),
    ensures
        r@ == outcome(tasks@, pending, state),
{
    match state.phase {
        Phase::Committed => insert_at(tasks, state.cursor, pending),
        _ => tasks,
    }
}

/// Runs a whole session on a given run of key presses, from the top slot.
/// Keys after the session has ended change nothing; a run that ends while
/// still browsing leaves the list as it was.
pub fn place_with_keys(tasks: Vec<Task>, pending: Task, keys: &Vec<KeyPress>) -> (r: Vec<Task>)
    ensures
        r@ == outcome(tasks@, pending, run_keys(Placement::spec_start(tasks@.len() as usize), keys@)),
{
    let mut state = Placement::start(tasks.len());
    let mut i: usize = 0;
    while i < keys.len()
        invariant
            0 <= i <= keys@.len(),
            state.wf(),
            state.len == tasks@.len(),
            state == run_keys(Placement::spec_start(tasks@.len() as usize), keys@.subrange(0, i as int)),
        decreases keys@.len() - i,
    {
        assert(keys@.subrange(0, i + 1).drop_last() =~= keys@.subrange(0, i as int));
        state = state.press(keys[i]);
        i = i + 1;
    }
    assert(keys@.subrange(0, keys@.len() as int) =~= keys@);
    finish(tasks, pending, state)
}

/// Committing puts the pending task at the cursor's index of a list one
/// longer, and the other tasks keep their order around it.
pub proof fn law_commit_places_at_cursor(tasks: Seq<Task>, pending: Task, s: Placement)
    requires
        s.wf(),
        s.len == tasks.len(),
        s.phase == Phase::Committed,
    ensures
        outcome(tasks, pending, s).len() == tasks.len() + 1,
        outcome(tasks, pending, s)[s.cursor as int] == pending,
        outcome(tasks, pending, s).remove(s.cursor as int) == tasks,
        forall|i: int| 0 <= i < s.cursor ==> outcome(tasks, pending, s)[i] == tasks[i],
        forall|i: int|
            s.cursor < i <= tasks.len() ==> outcome(tasks, pending, s)[i] == tasks[i - 1],
{
    assert(tasks.insert(s.cursor as int, pending).remove(s.cursor as int) =~= tasks);
}

/// Aborting hands back the very list that the session started with.
pub proof fn law_abort_keeps_list(tasks: Seq<Task>, pending: Task, s: Placement)
    requires
        s.phase == Phase::Aborted,
    ensures
        outcome(tasks, pending, s) == tasks,
{
}

/// Moving down from the end slot and moving up from the top slot change
/// nothing, and no command takes the cursor off the slots `0..=len`.
pub proof fn law_cursor_bounds(s: Placement, cmd: Command)
    requires
        s.wf(),
    ensures
        next_state(s, cmd).wf(),
        next_state(s, cmd).len == s.len,
        s.cursor == s.len && cmd == Command::MoveDown ==> next_state(s, cmd) == s,
        s.cursor == 0 && cmd == Command::MoveUp ==> next_state(s, cmd) == s,
{
}

/// However many keys are pressed, the cursor stays on the slots `0..=len`.
pub proof fn law_cursor_stays_on_slots(s: Placement, keys: Seq<KeyPress>)
    requires
        s.wf(),
    ensures
        run_keys(s, keys).wf(),
        run_keys(s, keys).len == s.len,
    decreases keys.len(),
{
    if keys.len() > 0 {
        law_cursor_stays_on_slots(s, keys.drop_last());
    }
}

} // verus!
