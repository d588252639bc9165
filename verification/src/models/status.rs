use vstd::prelude::*;

verus! {

/// Lifecycle state of a task.
#[derive(Debug, Clone, Copy, PartialEq, Eq, Structural, PartialOrd, Ord, Hash)]
pub enum Status {
    /// Task has been created but work has not started.
    New,
    /// Task is actively being worked on.
    InProgress,
    /// Task has been finished.
    Completed,
}

/// The word a status is displayed as.
pub open spec fn status_label(s: Status) -> Seq<char> {
    match s {
        Status::New => "new"@,
        Status::InProgress => "in_progress"@,
        Status::Completed => "completed"@,
    }
}

impl Status {
    /// The word for this status (`new`, `in_progress`, `completed`).
    pub fn label(&self) -> (s: String)
        ensures
            s@ == status_label(*self),
    {
        match self {
            Status::New => String::from_str("new"),
            Status::InProgress => String::from_str("in_progress"),
            Status::Completed => String::from_str("completed"),
        }
    }
}

} // verus!
