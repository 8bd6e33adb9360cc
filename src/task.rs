use vstd::prelude::*;

verus! {

/// Status glyph of a task that is still open.
pub const PENDING: char = ' ';

/// Status glyph of a task that has been completed.
pub const COMPLETED: char = '\u{2713}';

/// The mathematical value of a task record.
pub struct TaskView {
    pub time: u64,
    pub description: Seq<char>,
    pub status: char,
}

/// One tracked task: a creation marker (milliseconds since the Unix epoch),
/// a free-form description and a status glyph.
#[derive(Clone, Debug)]
pub struct Task {
    pub time: u64,
    pub description: String,
    pub status: char,
}

impl View for Task {
    type V = TaskView;

    open spec fn view(&self) -> TaskView {
        TaskView { time: self.time, description: self.description@, status: self.status }
    }
}

/// The record `t` once completed: same marker and description, status `COMPLETED`.
pub open spec fn completed_view(t: TaskView) -> TaskView {
    TaskView { status: COMPLETED, ..t }
}

/// Relies on std::time::SystemTime::now: the wall-clock time read as whole
/// milliseconds since the Unix epoch (0 for a clock set before it).
#[verifier::external_body]
fn now_millis() -> (r: u64) {
    match std::time::SystemTime::now().duration_since(std::time::UNIX_EPOCH) {
        Ok(d) => d.as_millis() as u64,
        Err(_) => 0,
    }
}

impl Task {
    /// A fresh pending task with the given description, stamped with the current time.
    pub fn new(description: String) -> (r: Task)
        ensures
            r.description@ == description@,
            r.status == PENDING,
    {
        Task { time: now_millis(), description, status: PENDING }
    }

    /// Marks the task completed; completing a completed task changes nothing.
    pub fn complete(&mut self)
        ensures
            final(self)@ == completed_view(old(self)@),
    {
        self.status = COMPLETED;
    }

    /// Whether the task has been completed.
    pub fn is_completed(&self) -> (r: bool)
        ensures
            r == (self.status == COMPLETED),
    {
        self.status == COMPLETED
    }
}

/// Tasks are equal when their creation markers are equal; the content does
/// not take part.
impl PartialEq for Task {
    fn eq(&self, other: &Task) -> (r: bool) {
        self.time == other.time
    }
}

impl Eq for Task {
}

impl vstd::std_specs::cmp::PartialEqSpecImpl for Task {
    open spec fn obeys_eq_spec() -> bool {
        true
    }

    open spec fn eq_spec(&self, other: &Task) -> bool {
        self.time == other.time
    }
}

/// The order of creation markers; description and status do not take part.
pub open spec fn order_of(a: u64, b: u64) -> core::cmp::Ordering {
    if a < b {
        core::cmp::Ordering::Less
    } else if a == b {
        core::cmp::Ordering::Equal
    } else {
        core::cmp::Ordering::Greater
    }
}

/// Tasks are ordered by their creation markers alone.
impl PartialOrd for Task {
    fn partial_cmp(&self, other: &Task) -> (r: Option<core::cmp::Ordering>) {
        if self.time < other.time {
            Some(core::cmp::Ordering::Less)
        } else if self.time == other.time {
            Some(core::cmp::Ordering::Equal)
        } else {
            Some(core::cmp::Ordering::Greater)
        }
    }
}

impl vstd::std_specs::cmp::PartialOrdSpecImpl for Task {
    open spec fn obeys_partial_cmp_spec() -> bool {
        true
    }

    open spec fn partial_cmp_spec(&self, other: &Task) -> Option<core::cmp::Ordering> {
        Some(order_of(self.time, other.time))
    }
}

} // verus!
