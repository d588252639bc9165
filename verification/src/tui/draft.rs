//! Insert-mode draft and the kind of item it becomes on submit.

use vstd::prelude::*;

verus! {

/// Text being typed, and what it will create.
#[derive(Debug)]
pub struct Draft {
    pub text: String,
    pub target: InsertTarget,
}

/// What submitting a draft creates. Tasks live under projects and subtasks
/// under tasks; there is no subtask of a subtask.
#[derive(Debug, Clone, Copy, PartialEq, Eq, Structural)]
pub enum InsertTarget {
    /// Sidebar `i`: a new project.
    Project,
    /// Tree `i` on an empty project: a first task.
    TaskRoot,
    /// Tree `i` with the cursor on a task: a task after it.
    TaskSibling { after: u32 },
    /// Tree `I` on a task, or `i` on a subtask: a subtask of `task`.
    Subtask { task: u32 },
}

impl Draft {
    /// An empty draft for `target`.
    pub fn new(target: InsertTarget) -> (d: Self)
        ensures
            d.text@ == Seq::<char>::empty(),
            d.target == target,
    {
        Draft { text: String::new(), target }
    }
}

} // verus!
