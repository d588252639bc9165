use vstd::prelude::*;

use crate::clock::{format_ymd, now, ymd_date_text, Timestamp};
use crate::models::priority::{priority_label, Priority};
use crate::text::{decimal, push_decimal};

verus! {

/// A step of a task; it is either done or not.
#[derive(Debug)]
pub struct Subtask {
    pub id: u32,
    pub description: String,
    pub priority: Priority,
    pub completed: bool,
    pub created_at: Timestamp,
}

/// `s` with the description and the priority replaced where given.
pub open spec fn edited_subtask(
    s: Subtask,
    description: Option<String>,
    priority: Option<Priority>,
) -> Subtask {
    Subtask {
        description: match description {
            Some(d) => d,
            None => s.description,
        },
        priority: match priority {
            Some(p) => p,
            None => s.priority,
        },
        ..s
    }
}

/// How a subtask is displayed: `[id] [x] description (priority) -- (date)`,
/// with a blank in place of `x` while it is not done.
pub open spec fn subtask_text(s: Subtask) -> Seq<char> {
    "["@ + decimal(s.id as nat) + "] ["@ + (if s.completed {
        "x"@
    } else {
        " "@
    }) + "] "@ + s.description@ + " ("@ + priority_label(s.priority) + ") -- ("@
        + ymd_date_text(s.created_at.secs, s.created_at.nanos) + ")"@
}

impl Subtask {
    /// A subtask that is not done yet, created now.
    pub fn new(id: u32, description: String, priority: Priority) -> (s: Self)
        ensures
            s.id == id,
            s.description == description,
            s.priority == priority,
            !s.completed,
    {
        Subtask { id, description, priority, completed: false, created_at: now() }
    }

    /// Marks the subtask done.
    pub fn complete(&mut self)
        ensures
            *final(self) == (Subtask { completed: true, ..*old(self) }),
    {
        self.completed = true;
    }

    /// Marks the subtask not done.
    pub fn uncomplete(&mut self)
        ensures
            *final(self) == (Subtask { completed: false, ..*old(self) }),
    {
        self.completed = false;
    }

    /// Replaces the description and the priority where they are given.
    pub fn edit(&mut self, description: Option<String>, priority: Option<Priority>)
        ensures
            *final(self) == edited_subtask(*old(self), description, priority),
    {
        if let Some(desc) = description {
            self.description = desc;
        }
        if let Some(p) = priority {
            self.priority = p;
        }
    }

    /// The subtask as one line of text.
    pub fn display(&self) -> (t: String)
        ensures
            t@ == subtask_text(*self),
    {
        let mut t = "[".to_owned();
        push_decimal(&mut t, self.id as u64);
        t.append("] [");
        if self.completed {
            t.append("x");
        } else {
            t.append(" ");
        }
        t.append("] ");
        t.append(self.description.as_str());
        t.append(" (");
        t.append(self.priority.label().as_str());
        t.append(") -- (");
        t.append(format_ymd(&self.created_at).as_str());
        t.append(")");
        t
    }
}

} // verus!
