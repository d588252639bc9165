//! The ways an operation of the library can be refused.

use vstd::prelude::*;

use crate::text::{decimal, push_decimal};

verus! {

/// Why an operation was refused.
#[derive(Debug, Clone, Copy, PartialEq, Eq, Structural)]
pub enum AppError {
    WorkspaceAlreadyInit,
    WorkspaceNotFound,
    ProjectNotFound { id: u32 },
    NoActiveProject,
    TaskNotFound { id: u32 },
    SubtaskNotFound { task_id: u32, subtask_id: u32 },
    SubtaskDepthExceeded,
    TaskHasIncompleteSubtasks { id: u32 },
    InvalidStatusTransition { id: u32 },
    NoActiveTask,
}

/// The message shown to the user for an error.
pub open spec fn error_message(e: AppError) -> Seq<char> {
    match e {
        AppError::WorkspaceAlreadyInit => "workspace already initialized in this directory"@,
        AppError::WorkspaceNotFound => "no workspace found — run `rtodo init` first"@,
        AppError::ProjectNotFound { id } => "project "@ + decimal(id as nat) + " not found"@,
        AppError::NoActiveProject => "no active project — run `rtodo project switch <id>` first"@,
        AppError::TaskNotFound { id } => "task "@ + decimal(id as nat) + " not found"@,
        AppError::SubtaskNotFound { task_id, subtask_id } => "subtask "@ + decimal(
            task_id as nat,
        ) + "."@ + decimal(subtask_id as nat) + " not found"@,
        AppError::SubtaskDepthExceeded => "cannot add subtask to a subtask (max depth: 2)"@,
        AppError::TaskHasIncompleteSubtasks { id } => "task "@ + decimal(id as nat)
            + " has incomplete subtasks — complete them first"@,
        AppError::InvalidStatusTransition { id } => "task "@ + decimal(id as nat)
            + " cannot move to that status given its subtasks"@,
        AppError::NoActiveTask => "no active task"@,
    }
}

/// `prefix`, the decimal form of `n`, then `suffix`.
fn framed_number(prefix: &str, n: u32, suffix: &str) -> (s: String)
    ensures
        s@ == prefix@ + decimal(n as nat) + suffix@,
{
    let mut s = prefix.to_owned();
    push_decimal(&mut s, n as u64);
    s.append(suffix);
    s
}

impl AppError {
    /// The message shown to the user for this error.
    pub fn message(&self) -> (s: String)
        ensures
            s@ == error_message(*self),
    {
        match self {
            AppError::WorkspaceAlreadyInit => "workspace already initialized in this directory".to_owned(),
            AppError::WorkspaceNotFound => "no workspace found — run `rtodo init` first".to_owned(),
            AppError::ProjectNotFound { id } => framed_number("project ", *id, " not found"),
            AppError::NoActiveProject => "no active project — run `rtodo project switch <id>` first".to_owned(),
            AppError::TaskNotFound { id } => framed_number("task ", *id, " not found"),
            AppError::SubtaskNotFound { task_id, subtask_id } => {
                let mut s = framed_number("subtask ", *task_id, ".");
                let rest = framed_number("", *subtask_id, " not found");
                s.append(rest.as_str());
                proof {
                    reveal_strlit("");
                }
                s
            },
            AppError::SubtaskDepthExceeded => "cannot add subtask to a subtask (max depth: 2)".to_owned(),
            AppError::TaskHasIncompleteSubtasks { id } => framed_number(
                "task ",
                *id,
                " has incomplete subtasks — complete them first",
            ),
            AppError::InvalidStatusTransition { id } => framed_number(
                "task ",
                *id,
                " cannot move to that status given its subtasks",
            ),
            AppError::NoActiveTask => "no active task".to_owned(),
        }
    }
}

} // verus!
