use vstd::prelude::*;
use crate::listing::Filter;

verus! {

/// What one invocation does with the store.
#[derive(Debug, Clone, Copy, PartialEq, Eq, Structural)]
pub enum Operation {
    Add,
    Remove,
    Complete,
    List,
}

/// Whether two strings hold the same characters.
pub fn same_text(a: &str, b: &str) -> (r: bool)
    ensures
        r == (a@ == b@),
{
    let n = a.unicode_len();
    if n != b.unicode_len() {
        return false;
    }
    let mut i: usize = 0;
    while i < n
        invariant
            n == a@.len(),
            n == b@.len(),
            i <= n,
            a@.subrange(0, i as int) == b@.subrange(0, i as int),
        decreases n - i,
    {
        if a.get_char(i) != b.get_char(i) {
            return false;
        }
        assert(a@.subrange(0, i + 1) =~= a@.subrange(0, i as int).push(a@[i as int]));
        assert(b@.subrange(0, i + 1) =~= b@.subrange(0, i as int).push(b@[i as int]));
        i = i + 1;
    }
    assert(a@ =~= a@.subrange(0, n as int));
    assert(b@ =~= b@.subrange(0, n as int));
    true
}

/// The operation named `s`, if any.
pub open spec fn operation_named(s: Seq<char>) -> Option<Operation> {
    if s == "add"@ {
        Some(Operation::Add)
    } else if s == "remove"@ {
        Some(Operation::Remove)
    } else if s == "complete"@ {
        Some(Operation::Complete)
    } else if s == "list"@ {
        Some(Operation::List)
    } else {
        None
    }
}

/// The filter named `s`, if any; the empty name means no filtering.
pub open spec fn filter_named(s: Seq<char>) -> Option<Filter> {
    if s == "none"@ || s == ""@ {
        Some(Filter::All)
    } else if s == "pending"@ {
        Some(Filter::Pending)
    } else if s == "completed"@ {
        Some(Filter::Completed)
    } else {
        None
    }
}

/// The message for a name that is neither an operation nor a filter.
pub const PARSE_ERROR: &'static str = "Could not parse filter";

impl Operation {
    /// The operation named `s`: `add`, `remove`, `complete` or `list`.
    pub fn parse(s: &str) -> (r: Option<Operation>)
        ensures
            r == operation_named(s@),
    {
        if same_text(s, "add") {
            Some(Operation::Add)
        } else if same_text(s, "remove") {
            Some(Operation::Remove)
        } else if same_text(s, "complete") {
            Some(Operation::Complete)
        } else if same_text(s, "list") {
            Some(Operation::List)
        } else {
            None
        }
    }
}

impl Filter {
    /// The filter named `s`: `none` or the empty name, `pending`, `completed`.
    pub fn parse(s: &str) -> (r: Option<Filter>)
        ensures
            r == filter_named(s@),
    {
        if same_text(s, "none") || same_text(s, "") {
            Some(Filter::All)
        } else if same_text(s, "pending") {
            Some(Filter::Pending)
        } else if same_text(s, "completed") {
            Some(Filter::Completed)
        } else {
            None
        }
    }
}

impl core::str::FromStr for Operation {
    type Err = &'static str;

    fn from_str(s: &str) -> Result<Operation, &'static str> {
        match Operation::parse(s) {
            Some(op) => Ok(op),
            None => Err(PARSE_ERROR),
        }
    }
}

impl core::str::FromStr for Filter {
    type Err = &'static str;

    fn from_str(s: &str) -> Result<Filter, &'static str> {
        match Filter::parse(s) {
            Some(f) => Ok(f),
            None => Err(PARSE_ERROR),
        }
    }
}

} // verus!
