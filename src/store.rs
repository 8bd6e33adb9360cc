use vstd::prelude::*;
use crate::task::{Task, TaskView, PENDING, completed_view};

verus! {

/// The views of a sequence of records, in the same order.
pub open spec fn records_view(v: Seq<Task>) -> Seq<TaskView> {
    v.map_values(|t: Task| t@)
}

/// The record with identifier `id` (1-based position), if there is one.
pub open spec fn task_at(s: Seq<TaskView>, id: int) -> Option<TaskView> {
    if 1 <= id <= s.len() {
        Some(s[id - 1])
    } else {
        None
    }
}

/// `after` is `before` with one pending task described by `d` appended,
/// under identifier `before.len() + 1`.
pub open spec fn add_post(before: Seq<TaskView>, d: Seq<char>, after: Seq<TaskView>) -> bool {
    &&& after.len() == before.len() + 1
    &&& after.drop_last() == before
    &&& after.last().description == d
    &&& after.last().status == PENDING
}

/// The store once the task with identifier `id` is removed; unchanged when
/// there is no such task.
pub open spec fn removed(s: Seq<TaskView>, id: int) -> Seq<TaskView> {
    if 1 <= id <= s.len() {
        s.remove(id - 1)
    } else {
        s
    }
}

/// The store once the task with identifier `id` is completed, or `None` when
/// there is no such task.
pub open spec fn completed(s: Seq<TaskView>, id: int) -> Option<Seq<TaskView>> {
    if 1 <= id <= s.len() {
        Some(s.update(id - 1, completed_view(s[id - 1])))
    } else {
        None
    }
}

/// The tasks of one invocation, identified by their 1-based position.
pub struct TaskStore {
    tasks: Vec<Task>,
}

impl View for TaskStore {
    type V = Seq<TaskView>;

    closed spec fn view(&self) -> Seq<TaskView> {
        records_view(self.tasks@)
    }
}

/// Completing asked for an identifier that names no task.
#[derive(Debug, PartialEq, Eq, Structural)]
pub struct TaskNotFound {
    pub id: usize,
}

impl TaskStore {
    /// The store without tasks.
    pub fn new() -> (r: TaskStore)
        ensures
            r@ == Seq::<TaskView>::empty(),
    {
        let r = TaskStore { tasks: Vec::new() };
        assert(r@ =~= Seq::<TaskView>::empty());
        r
    }

    /// The number of tasks.
    pub fn len(&self) -> (r: usize)
        ensures
            r == self@.len(),
    {
        self.tasks.len()
    }

    /// The task with identifier `id`, if there is one.
    pub fn get(&self, id: usize) -> (r: Option<&Task>)
        ensures
            match r {
                Some(t) => task_at(self@, id as int) == Some(t@),
                None => task_at(self@, id as int) is None,
            },
    {
        if 1 <= id && id <= self.tasks.len() {
            Some(&self.tasks[id - 1])
        } else {
            None
        }
    }

    /// The records in identifier order, as they are persisted.
    pub fn into_records(self) -> (r: Vec<Task>)
        ensures
            records_view(r@) == self@,
    {
        self.tasks
    }
}

/// Builds the store from records in storage order: the record at position
/// `i` gets identifier `i + 1`.
pub fn vec_to_map(tasks: Vec<Task>) -> (r: TaskStore)
    ensures
        r@ == records_view(tasks@),
{
    TaskStore { tasks }
}

/// Adds a pending task described by `description` under the identifier one
/// past the current count.
pub fn add_task(description: String, tasks: TaskStore) -> (r: TaskStore)
    ensures
        add_post(tasks@, description@, r@),
{
    let mut v = tasks.tasks;
    let t = Task::new(description);
    v.push(t);
    let r = TaskStore { tasks: v };
    assert(r@.drop_last() =~= tasks@);
    r
}

/// Removes the task with identifier `id`; an identifier that names no task
/// leaves the store unchanged.
pub fn remove_task(id: usize, tasks: TaskStore) -> (r: TaskStore)
    ensures
        r@ == removed(tasks@, id as int),
{
    let mut v = tasks.tasks;
    if 1 <= id && id <= v.len() {
        let _gone = v.remove(id - 1);
        let r = TaskStore { tasks: v };
        assert(r@ =~= tasks@.remove(id - 1));
        r
    } else {
        TaskStore { tasks: v }
    }
}

/// Completes the task with identifier `id`; fails when there is no such task.
pub fn complete_task(id: usize, tasks: TaskStore) -> (r: Result<TaskStore, TaskNotFound>)
    ensures
        match r {
            Ok(s) => completed(tasks@, id as int) == Some(s@),
            Err(e) => completed(tasks@, id as int) is None && e.id == id,
        },
{
    let mut v = tasks.tasks;
    if 1 <= id && id <= v.len() {
        let mut t = v.remove(id - 1);
        t.complete();
        v.insert(id - 1, t);
        let r = TaskStore { tasks: v };
        assert(r@ =~= tasks@.update(id - 1, completed_view(tasks@[id - 1])));
        Ok(r)
    } else {
        Err(TaskNotFound { id })
    }
}

/// Whitespace between JSON tokens.
pub open spec fn is_json_space(c: char) -> bool {
    c == ' ' || c == '\t' || c == '\n' || c == '\r'
}

/// Text that holds no content: empty, or whitespace only.
pub open spec fn is_blank(s: Seq<char>) -> bool {
    forall|i: int| 0 <= i < s.len() ==> is_json_space(#[trigger] s[i])
}

/// Whether the stored text holds no content.
pub fn blank_text(text: &str) -> (r: bool)
    ensures
        r == is_blank(text@),
{
    let n = text.unicode_len();
    let mut i: usize = 0;
    while i < n
        invariant
            n == text@.len(),
            i <= n,
            forall|j: int| 0 <= j < i ==> is_json_space(#[trigger] text@[j]),
        decreases n - i,
    {
        let c = text.get_char(i);
        if !(c == ' ' || c == '\t' || c == '\n' || c == '\r') {
            return false;
        }
        i = i + 1;
    }
    true
}

/// Why stored text could not be loaded.
#[derive(Debug, PartialEq, Eq, Structural)]
pub enum LoadError {
    /// The text holds content that is not a sequence of task records.
    Malformed,
}

/// Builds the store from the stored text and what decoding it gave (`None`
/// when it did not decode): decoded records are numbered in order, text
/// without content is an empty store, and anything else is malformed.
pub fn load_store(text: &str, decoded: Option<Vec<Task>>) -> (r: Result<TaskStore, LoadError>)
    ensures
        match decoded {
            Some(v) => r is Ok && r->Ok_0@ == records_view(v@),
            None => if is_blank(text@) {
                r is Ok && r->Ok_0@ == Seq::<TaskView>::empty()
            } else {
                r == Err::<TaskStore, LoadError>(LoadError::Malformed)
            },
        },
{
    match decoded {
        Some(v) => Ok(vec_to_map(v)),
        None => {
            if blank_text(text) {
                Ok(TaskStore::new())
            } else {
                Err(LoadError::Malformed)
            }
        },
    }
}

} // verus!
