use vstd::prelude::*;

verus! {

/// Importance level of a task.
#[derive(Debug, Clone, Copy, PartialEq, Eq, Structural, PartialOrd, Ord, Hash)]
pub enum Priority {
    /// Low importance: tackle after `Medium` and `High` tasks.
    Low,
    /// Default importance level.
    Medium,
    /// High importance: shown with a `!` marker in listings.
    High,
}

/// The lower-case word a priority is displayed as.
pub open spec fn priority_label(p: Priority) -> Seq<char> {
    match p {
        Priority::Low => "low"@,
        Priority::Medium => "medium"@,
        Priority::High => "high"@,
    }
}

impl Priority {
    /// The lower-case word for this priority (`low`, `medium`, `high`).
    pub fn label(&self) -> (s: String)
        ensures
            s@ == priority_label(*self),
    {
        match self {
            Priority::Low => String::from_str("low"),
            Priority::Medium => String::from_str("medium"),
            Priority::High => String::from_str("high"),
        }
    }
}

} // verus!
