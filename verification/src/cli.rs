//! Command-line vocabulary: task references and the commands the program
//! understands.

use std::str::FromStr;
use vstd::prelude::*;

use crate::models::{Priority, Status};

use crate::text::{
    all_digits, chars_of, decimal, decimal_string, is_digit, lemma_decimal_digits, parse_u32,
    parse_u32_spec, push_decimal, string_from_chars,
};

verus! {

/// A reference to either a task (`"0"`) or a subtask (`"0.13"`).
#[derive(Debug, Clone, Copy, PartialEq, Eq, Structural)]
pub struct TaskRef {
    pub task: u32,
    pub subtask: Option<u32>,
}

/// The index of the first `.` in `s` at or after `i`, or `s.len()` if none.
pub open spec fn dot_from(s: Seq<char>, i: int) -> int
    decreases s.len() - i,
{
    if i < 0 || i >= s.len() {
        s.len() as int
    } else if s[i] == '.' {
        i
    } else {
        dot_from(s, i + 1)
    }
}

/// What parsing `s` as a task reference gives: the text is split at `.`;
/// the first part is the task id, the optional second part the subtask id,
/// each parsed as a `u32`; a third part is refused. On failure the error
/// message names the part that did not parse (checked in that order).
pub open spec fn task_ref_parse(s: Seq<char>) -> Result<TaskRef, Seq<char>> {
    let d1 = dot_from(s, 0);
    let task_str = s.subrange(0, d1);
    match parse_u32_spec(task_str) {
        None => Err("invalid task id: '"@ + task_str + "'"@),
        Some(task) => if d1 >= s.len() {
            Ok(TaskRef { task, subtask: None })
        } else {
            let d2 = dot_from(s, d1 + 1);
            let sub_str = s.subrange(d1 + 1, d2);
            match parse_u32_spec(sub_str) {
                None => Err("invalid subtask id: '"@ + sub_str + "'"@),
                Some(sid) => if d2 < s.len() {
                    Err("too many dots in task ref: '"@ + s + "'"@)
                } else {
                    Ok(TaskRef { task, subtask: Some(sid) })
                },
            }
        },
    }
}

/// How a task reference is written: `task` or `task.subtask`.
pub open spec fn task_ref_text(r: TaskRef) -> Seq<char> {
    match r.subtask {
        Some(sid) => decimal(r.task as nat) + "."@ + decimal(sid as nat),
        None => decimal(r.task as nat),
    }
}

/// The first `.` at or after `i`, scanning `v` from `i` on.
fn find_dot(v: &Vec<char>, i: usize) -> (d: usize)
    requires
        i <= v@.len(),
    ensures
        d as int == dot_from(v@, i as int),
        i <= d <= v@.len(),
{
    let mut j: usize = i;
    while j < v.len()
        invariant
            i <= j <= v@.len(),
            dot_from(v@, i as int) == dot_from(v@, j as int),
        decreases v@.len() - j,
    {
        if v[j] == '.' {
            return j;
        }
        j = j + 1;
    }
    j
}

/// The message `prefix'part'`.
fn quoted_message(prefix: &str, part: String) -> (m: String)
    ensures
        m@ == prefix@ + part@ + "'"@,
{
    let mut m = prefix.to_owned();
    m.append(part.as_str());
    m.append("'");
    m
}

impl TaskRef {
    /// Parses `"<tid>"` or `"<tid>.<sid>"`.
    pub fn parse(s: &str) -> (r: Result<TaskRef, String>)
        ensures
            match (r, task_ref_parse(s@)) {
                (Ok(a), Ok(b)) => a == b,
                (Err(m), Err(e)) => m@ == e,
                _ => false,
            },
    {
        let v = chars_of(s);
        let d1 = find_dot(&v, 0);
        let task: u32 = match parse_u32(&v, 0, d1) {
            None => {
                return Err(quoted_message("invalid task id: '", string_from_chars(&v, 0, d1)));
            },
            Some(t) => t,
        };
        if d1 >= v.len() {
            return Ok(TaskRef { task, subtask: None });
        }
        let d2 = find_dot(&v, d1 + 1);
        let sid: u32 = match parse_u32(&v, d1 + 1, d2) {
            None => {
                return Err(
                    quoted_message("invalid subtask id: '", string_from_chars(&v, d1 + 1, d2)),
                );
            },
            Some(x) => x,
        };
        if d2 < v.len() {
            return Err(quoted_message("too many dots in task ref: '", s.to_owned()));
        }
        Ok(TaskRef { task, subtask: Some(sid) })
    }

    /// The text form of the reference: `"2"` or `"2.7"`.
    pub fn to_string(&self) -> (s: String)
        ensures
            s@ == task_ref_text(*self),
    {
        let mut s = decimal_string(self.task as u64);
        match self.subtask {
            Some(sid) => {
                s.append(".");
                push_decimal(&mut s, sid as u64);
            },
            None => {},
        }
        s
    }
}

/// The first dot at or after `i` in a run of digits ending at `k` is at `k`.
proof fn lemma_dot_after_digits(s: Seq<char>, k: int, i: int)
    requires
        0 <= i <= k <= s.len(),
        all_digits(s.subrange(0, k)),
        k == s.len() || s[k] == '.',
    ensures
        dot_from(s, i) == k,
    decreases k - i,
{
    if i < k {
        assert(is_digit(s.subrange(0, k)[i]));
        lemma_dot_after_digits(s, k, i + 1);
    }
}

/// Parsing the text form of a task reference gives back the same reference.
pub proof fn lemma_task_ref_round_trip(r: TaskRef)
    ensures
        task_ref_parse(task_ref_text(r)) == Ok::<TaskRef, Seq<char>>(r),
{
    let a = decimal(r.task as nat);
    lemma_decimal_digits(r.task as nat);
    let s = task_ref_text(r);
    match r.subtask {
        None => {
            assert(s.subrange(0, a.len() as int) =~= a);
            lemma_dot_after_digits(s, a.len() as int, 0);
        },
        Some(sid) => {
            let b = decimal(sid as nat);
            lemma_decimal_digits(sid as nat);
            reveal_strlit(".");
            assert(s.subrange(0, a.len() as int) =~= a);
            assert(s[a.len() as int] == '.');
            lemma_dot_after_digits(s, a.len() as int, 0);
            let t = s.subrange(a.len() as int + 1, s.len() as int);
            assert(t =~= b);
            assert(s.subrange(a.len() as int + 1, s.len() as int).subrange(0, b.len() as int) =~= b);
            lemma_dot_from_shift(s, a.len() as int + 1, s.len() as int, a.len() as int + 1);
        },
    }
}

/// Within digits `s[lo..k]`, the search for a dot from any `i` ends at `k`.
proof fn lemma_dot_from_shift(s: Seq<char>, lo: int, k: int, i: int)
    requires
        0 <= lo <= i <= k == s.len(),
        all_digits(s.subrange(lo, k)),
    ensures
        dot_from(s, i) == k,
    decreases k - i,
{
    if i < k {
        assert(is_digit(s.subrange(lo, k)[i - lo]));
        lemma_dot_from_shift(s, lo, k, i + 1);
    }
}

/// The whole command line: one command.
#[derive(Debug)]
pub struct CLI {
    pub command: Commands,
}

/// Top-level commands.
#[derive(Debug)]
pub enum Commands {
    /// Initialize a new workspace in the current directory.
    Init,
    /// Manage projects within the workspace.
    Project { command: ProjectCommands },
    /// Manage tasks within the active project.
    Task { command: TaskCommands },
    /// Start the terminal user interface.
    Ui,
}

/// Subcommands of `rtodo project`.
#[derive(Debug)]
pub enum ProjectCommands {
    Add { name: String },
    Ls,
    /// Make project `pid` the active project (the `set` subcommand).
    Select { pid: u32 },
    UnSet,
    Delete { pid: u32 },
    Edit { pid: u32, name: String },
}

/// Subcommands of `rtodo task`.
#[derive(Debug)]
pub enum TaskCommands {
    /// Add a new task, or a subtask of task `parent` when given.
    Add { desc: String, priority: Priority, parent: Option<u32> },
    /// List the tasks of the active project, grouped by status.
    Ls { status: Option<Status>, pending: bool },
    /// Make a task the active task.
    Start { tid: u32 },
    /// Complete a task or subtask; defaults to the active task.
    Complete { tref: Option<TaskRef> },
    /// Move a task or subtask to a status; defaults to the active task.
    Move { status: Status, tref: Option<TaskRef> },
    /// Delete a task or subtask.
    Delete { tref: TaskRef },
    /// Edit a task's or subtask's description and/or priority.
    Edit { tref: Option<TaskRef>, desc: Option<String>, priority: Option<Priority> },
}

impl FromStr for TaskRef {
    type Err = String;

    fn from_str(s: &str) -> (r: Result<Self, Self::Err>)
        ensures
            match (r, task_ref_parse(s@)) {
                (Ok(a), Ok(b)) => a == b,
                (Err(m), Err(e)) => m@ == e,
                _ => false,
            },
    {
        TaskRef::parse(s)
    }
}

} // verus!
