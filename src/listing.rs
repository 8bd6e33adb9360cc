use vstd::prelude::*;
use crate::task::{Task, TaskView, PENDING, COMPLETED};
use crate::store::TaskStore;

verus! {

/// Which tasks a listing shows.
#[derive(Debug, Clone, Copy, PartialEq, Eq, Structural)]
pub enum Filter {
    All,
    Pending,
    Completed,
}

/// Whether a task with status `status` is shown under filter `f`.
pub open spec fn selected(f: Filter, status: char) -> bool {
    match f {
        Filter::All => true,
        Filter::Pending => status == PENDING,
        Filter::Completed => status == COMPLETED,
    }
}

/// The decimal digit for `d < 10`.
pub open spec fn digit_char(d: nat) -> char {
    if d == 0 { '0' }
    else if d == 1 { '1' }
    else if d == 2 { '2' }
    else if d == 3 { '3' }
    else if d == 4 { '4' }
    else if d == 5 { '5' }
    else if d == 6 { '6' }
    else if d == 7 { '7' }
    else if d == 8 { '8' }
    else { '9' }
}

/// The decimal notation of `n`, without leading zeros.
pub open spec fn decimal(n: nat) -> Seq<char>
    decreases n,
{
    if n < 10 {
        seq![digit_char(n)]
    } else {
        decimal(n / 10).push(digit_char(n % 10))
    }
}

/// The listing line of task `t` under identifier `id`: `id - description [glyph]`.
pub open spec fn line_of(id: nat, t: TaskView) -> Seq<char> {
    decimal(id) + " - "@ + t.description + " ["@ + seq![t.status] + "]"@
}

/// The lines that filter `f` shows for the tasks `s`, in identifier order.
pub open spec fn listing(s: Seq<TaskView>, f: Filter) -> Seq<Seq<char>>
    decreases s.len(),
{
    if s.len() == 0 {
        Seq::empty()
    } else {
        let rest = listing(s.drop_last(), f);
        if selected(f, s.last().status) {
            rest.push(line_of(s.len() as nat, s.last()))
        } else {
            rest
        }
    }
}

/// Relies on usize's ToString: the decimal notation of the number.
#[verifier::external_body]
fn decimal_text(n: usize) -> (r: String)
    ensures
        r@ == decimal(n as nat),
{
    n.to_string()
}

/// Relies on char's ToString: a string of that one character.
#[verifier::external_body]
fn char_text(c: char) -> (r: String)
    ensures
        r@ == seq![c],
{
    c.to_string()
}

/// Whether a task with status `status` is shown under `filter`.
pub fn filter_matches(filter: Filter, status: char) -> (r: bool)
    ensures
        r == selected(filter, status),
{
    match filter {
        Filter::All => true,
        Filter::Pending => status == PENDING,
        Filter::Completed => status == COMPLETED,
    }
}

/// The listing line of `task` under identifier `id`.
pub fn task_line(id: usize, task: &Task) -> (r: String)
    ensures
        r@ == line_of(id as nat, task@),
{
    let mut s = decimal_text(id);
    s.append(" - ");
    s.append(task.description.as_str());
    s.append(" [");
    let g = char_text(task.status);
    s.append(g.as_str());
    s.append("]");
    assert(s@ =~= line_of(id as nat, task@));
    s
}

/// The lines of the tasks that `filter` shows, in identifier order.
pub fn list_lines(tasks: &TaskStore, filter: Filter) -> (r: Vec<String>)
    ensures
        r@.map_values(|l: String| l@) == listing(tasks@, filter),
{
    let n = tasks.len();
    let mut out: Vec<String> = Vec::new();
    let mut i: usize = 0;
    while i < n
        invariant
            n == tasks@.len(),
            i <= n,
            out@.map_values(|l: String| l@) == listing(tasks@.subrange(0, i as int), filter),
        decreases n - i,
    {
        let id = i + 1;
        let t = tasks.get(id).unwrap();
        proof {
            assert(tasks@.subrange(0, id as int).drop_last() =~= tasks@.subrange(0, i as int));
        }
        if filter_matches(filter, t.status) {
            let line = task_line(id, t);
            out.push(line);
            assert(out@.map_values(|l: String| l@) =~= listing(tasks@.subrange(0, i as int), filter).push(line@));
        }
        i = id;
    }
    assert(tasks@.subrange(0, n as int) =~= tasks@);
    out
}

/// The name of a filter as the listing header shows it.
pub open spec fn filter_name(f: Filter) -> Seq<char> {
    match f {
        Filter::All => "none"@,
        Filter::Pending => "pending"@,
        Filter::Completed => "completed"@,
    }
}

/// The listing header: `Task (filter: name)`.
pub open spec fn header_of(f: Filter) -> Seq<char> {
    "Task (filter: "@ + filter_name(f) + ")"@
}

/// The box-drawing character that the rule under the header is made of.
pub const RULE_CHAR: char = '\u{2500}';

/// A rule of `n` box-drawing characters.
pub open spec fn rule_of(n: nat) -> Seq<char> {
    Seq::new(n, |i: int| RULE_CHAR)
}

/// Whole listing: header, a rule as long as the header, then the task lines.
pub open spec fn rendered(s: Seq<TaskView>, f: Filter) -> Seq<Seq<char>> {
    seq![header_of(f), rule_of(header_of(f).len())] + listing(s, f)
}

impl Filter {
    /// The name under which the filter is given and shown.
    pub fn name(&self) -> (r: &'static str)
        ensures
            r@ == filter_name(*self),
    {
        match self {
            Filter::All => "none",
            Filter::Pending => "pending",
            Filter::Completed => "completed",
        }
    }
}

/// The listing header for `filter`.
pub fn listing_header(filter: Filter) -> (r: String)
    ensures
        r@ == header_of(filter),
{
    let mut s = String::from_str("Task (filter: ");
    s.append(filter.name());
    s.append(")");
    s
}

/// A rule of `n` box-drawing characters.
pub fn rule_line(n: usize) -> (r: String)
    ensures
        r@ == rule_of(n as nat),
{
    let mut s = String::new();
    let mut i: usize = 0;
    while i < n
        invariant
            i <= n,
            s@ == rule_of(i as nat),
        decreases n - i,
    {
        s.append("\u{2500}");
        proof {
            reveal_strlit("\u{2500}");
        }
        assert(s@ =~= rule_of((i + 1) as nat));
        i = i + 1;
    }
    s
}

/// The whole listing of `tasks` under `filter`, line by line.
pub fn render_tasks(tasks: &TaskStore, filter: Filter) -> (r: Vec<String>)
    ensures
        r@.map_values(|l: String| l@) == rendered(tasks@, filter),
{
    let header = listing_header(filter);
    let n = header.unicode_len();
    let rule = rule_line(n);
    let mut lines = list_lines(tasks, filter);
    let mut out: Vec<String> = Vec::new();
    out.push(header);
    out.push(rule);
    out.append(&mut lines);
    assert(out@.map_values(|l: String| l@) =~= rendered(tasks@, filter));
    out
}

} // verus!
