//! What each command does to the workspace or the active project, and what
//! it reports back for the user to see.

use vstd::prelude::*;

use crate::cli::{ProjectCommands, TaskCommands, TaskRef};
use crate::clock::Timestamp;
use crate::error::AppError;
use crate::models::priority::Priority;
use crate::models::project::{
    project_text, subtask_added, subtask_changed, subtask_deleted,
    subtask_set_done, task_activated, task_added, task_deleted, task_edited, task_id_bound,
    task_moved, first_task_at, lemma_replace_keeps_wf, Project,
};
use crate::models::status::Status;
use crate::models::subtask::{subtask_text, Subtask};
use crate::models::task::Task;
use crate::workspace::{
    project_activated, project_added, project_deleted, project_renamed, first_project_at, Workspace,
};

verus! {

/// The verb a command's report leads with.
#[derive(Debug, Clone, Copy, PartialEq, Eq, Structural)]
pub enum Action {
    Added,
    Active,
    Removed,
    Updated,
    Started,
    Done,
    Moved,
}

/// What a project command reports.
#[derive(Debug)]
pub enum ProjectReport {
    /// The workspace's projects are to be listed.
    Listed,
    /// The active project was cleared.
    Unset,
    /// A project was acted on; `line` is its text.
    Changed { action: Action, line: String },
}

/// The parts of a task that a report shows.
#[derive(Debug)]
pub struct TaskSummary {
    pub id: u32,
    pub description: String,
    pub priority: Priority,
    pub created_at: Timestamp,
}

/// What a task command reports.
#[derive(Debug)]
pub enum TaskReport {
    /// The tasks are to be listed, restricted to `filter` when given.
    Listed { filter: Option<Vec<Status>> },
    /// A task was acted on.
    Task { action: Action, task: TaskSummary },
    /// A subtask was acted on; `line` is its text.
    Subtask { action: Action, line: String },
}

/// Whether `s` shows the task `t`.
pub open spec fn summarizes(s: TaskSummary, t: Task) -> bool {
    &&& s.id == t.id
    &&& s.description == t.description
    &&& s.priority == t.priority
    &&& s.created_at == t.created_at
}

/// Whether `r` reports `action` on the task `t`.
pub open spec fn reports_task(r: TaskReport, action: Action, t: Task) -> bool {
    r matches TaskReport::Task { action: a, task } && a == action && summarizes(task, t)
}

/// Whether `r` reports `action` on the subtask `s`.
pub open spec fn reports_subtask(r: TaskReport, action: Action, s: Subtask) -> bool {
    r matches TaskReport::Subtask { action: a, line } && a == action && line@ == subtask_text(s)
}

/// Whether `r` reports `action` on the project `p`.
pub open spec fn reports_project(r: ProjectReport, action: Action, p: Project) -> bool {
    r matches ProjectReport::Changed { action: a, line } && a == action && line@ == project_text(p)
}

/// The parts of `t` that a report shows.
fn summary(t: &Task) -> (s: TaskSummary)
    ensures
        summarizes(s, *t),
{
    TaskSummary {
        id: t.id,
        description: t.description.clone(),
        priority: t.priority,
        created_at: t.created_at,
    }
}

/// Runs a project command against the workspace.
pub fn dispatch_project(command: ProjectCommands, workspace: &mut Workspace) -> (r: Result<
    ProjectReport,
    AppError,
>)
    ensures
        match command {
            ProjectCommands::Add { name } => r matches Ok(rep) && project_added(
                *old(workspace),
                *final(workspace),
                name,
                final(workspace).projects@.last(),
            ) && reports_project(rep, Action::Added, final(workspace).projects@.last()),
            ProjectCommands::Ls => r matches Ok(ProjectReport::Listed) && *final(workspace) == *old(
                workspace,
            ),
            ProjectCommands::Select { pid } => match r {
                Ok(rep) => exists|p: Project|
                    #[trigger] reports_project(rep, Action::Active, p) && project_activated(
                        *old(workspace),
                        *final(workspace),
                        pid,
                        Ok(p),
                    ),
                Err(e) => project_activated(*old(workspace), *final(workspace), pid, Err(e)),
            },
            ProjectCommands::UnSet => r matches Ok(ProjectReport::Unset) && final(workspace).projects
                == old(workspace).projects && final(workspace).active_project_id is None,
            ProjectCommands::Delete { pid } => match r {
                Ok(rep) => exists|p: Project|
                    #[trigger] reports_project(rep, Action::Removed, p) && project_deleted(
                        *old(workspace),
                        *final(workspace),
                        pid,
                        Ok(p),
                    ),
                Err(e) => project_deleted(*old(workspace), *final(workspace), pid, Err(e)),
            },
            ProjectCommands::Edit { pid, name } => match r {
                Ok(rep) => exists|p: Project|
                    #[trigger] reports_project(rep, Action::Updated, p) && project_renamed(
                        *old(workspace),
                        *final(workspace),
                        pid,
                        name,
                        Ok(p),
                    ),
                Err(e) => project_renamed(*old(workspace), *final(workspace), pid, name, Err(e)),
            },
        },
        old(workspace).wf() ==> final(workspace).wf(),
{
    match command {
        ProjectCommands::Add { name } => {
            let p = workspace.add_project(name);
            let line = p.display();
            Ok(ProjectReport::Changed { action: Action::Added, line })
        },
        ProjectCommands::Ls => Ok(ProjectReport::Listed),
        ProjectCommands::Select { pid } => {
            let p = workspace.set_active_project(pid)?;
            let ghost pv = *p;
            let line = p.display();
            proof {
                let o = old(workspace).projects@;
                let i = choose|i: int| first_project_at(o, pid, i) && pv == o[i];
                assert(o.update(i, pv) =~= o);
            }
            assert(project_activated(*old(workspace), *workspace, pid, Ok(pv)));
            let rep = ProjectReport::Changed { action: Action::Active, line };
            assert(reports_project(rep, Action::Active, pv));
            Ok(rep)
        },
        ProjectCommands::UnSet => {
            workspace.clear_active_project();
            Ok(ProjectReport::Unset)
        },
        ProjectCommands::Delete { pid } => {
            let p = workspace.delete_project(pid)?;
            let line = p.display();
            assert(project_deleted(*old(workspace), *workspace, pid, Ok(p)));
            let rep = ProjectReport::Changed { action: Action::Removed, line };
            assert(reports_project(rep, Action::Removed, p));
            Ok(rep)
        },
        ProjectCommands::Edit { pid, name } => {
            let ghost name_v = name;
            let p = workspace.edit_project(pid, name)?;
            let ghost pv = *p;
            let line = p.display();
            assert(project_renamed(*old(workspace), *workspace, pid, name_v, Ok(pv)));
            let rep = ProjectReport::Changed { action: Action::Updated, line };
            assert(reports_project(rep, Action::Updated, pv));
            Ok(rep)
        },
    }
}

/// What a command's report and error say about a task operation whose
/// outcome is described by `rel`: on success the report shows `action` on
/// the task the operation gave; on failure the operation's error is
/// returned.
pub open spec fn task_outcome(
    r: Result<TaskReport, AppError>,
    action: Action,
    rel: spec_fn(Result<Task, AppError>) -> bool,
) -> bool {
    match r {
        Ok(rep) => exists|t: Task| #[trigger] reports_task(rep, action, t) && rel(Ok(t)),
        Err(e) => rel(Err(e)),
    }
}

/// Like `task_outcome`, for an operation on a subtask.
pub open spec fn subtask_outcome(
    r: Result<TaskReport, AppError>,
    action: Action,
    rel: spec_fn(Result<Subtask, AppError>) -> bool,
) -> bool {
    match r {
        Ok(rep) => exists|s: Subtask| #[trigger] reports_subtask(rep, action, s) && rel(Ok(s)),
        Err(e) => rel(Err(e)),
    }
}

/// The reference a command acts on: the one given, or else the active task.
pub open spec fn resolved_ref(p: Project, tref: Option<TaskRef>) -> Result<TaskRef, AppError> {
    match tref {
        Some(r) => Ok(r),
        None => match p.active_task_id {
            Some(id) => Ok(TaskRef { task: id, subtask: None }),
            None => Err(AppError::NoActiveTask),
        },
    }
}

/// The statuses a listing is restricted to: new and in progress for
/// `pending`, else the one status given, else none (all statuses).
pub open spec fn listing_filter(status: Option<Status>, pending: bool) -> Option<Seq<Status>> {
    if pending {
        Some(seq![Status::New, Status::InProgress])
    } else {
        match status {
            Some(s) => Some(seq![s]),
            None => None,
        }
    }
}

/// What a task command requires of the project: room for a new task id, or
/// for a new subtask id in the parent task.
pub open spec fn task_command_fits(command: TaskCommands, p: Project) -> bool {
    match command {
        TaskCommands::Add { parent, .. } => match parent {
            None => task_id_bound(p.tasks@) <= u32::MAX,
            Some(tid) => forall|i: int|
                first_task_at(p.tasks@, tid, i) ==> p.tasks@[i].next_subtask_id < u32::MAX,
        },
        _ => true,
    }
}

/// Whether `project` has room for what `command` adds (see
/// `task_command_fits`); the command panics otherwise.
pub fn task_command_accepted(command: &TaskCommands, project: &Project) -> (b: bool)
    ensures
        b == task_command_fits(*command, *project),
{
    match command {
        TaskCommands::Add { parent, .. } => match parent {
            None => project.task_id_ceiling() <= u32::MAX as u64,
            Some(tid) => match project.get_task(*tid) {
                Ok(k) => {
                    proof {
                        crate::models::project::lemma_first_task_unique(project.tasks@, *tid, k as int);
                    }
                    project.tasks[k].next_subtask_id < u32::MAX
                },
                Err(_) => true,
            },
        },
        _ => true,
    }
}

/// Resolves an explicit task reference or falls back to the active task.
pub fn tref_or_active(project: &Project, tref: Option<TaskRef>) -> (r: Result<TaskRef, AppError>)
    ensures
        r == resolved_ref(*project, tref),
{
    match tref {
        Some(r) => Ok(r),
        None => match project.active_task_id {
            Some(id) => Ok(TaskRef { task: id, subtask: None }),
            None => Err(AppError::NoActiveTask),
        },
    }
}

/// Runs a task command against the active project.
pub fn dispatch_task(command: TaskCommands, project: &mut Project) -> (r: Result<
    TaskReport,
    AppError,
>)
    requires
        task_command_fits(command, *old(project)),
    ensures
        match command {
            TaskCommands::Ls { status, pending } => *final(project) == *old(project) && (r matches Ok(
                TaskReport::Listed { filter },
            ) && match (filter, listing_filter(status, pending)) {
                (Some(v), Some(w)) => v@ == w,
                (None, None) => true,
                _ => false,
            }),
            TaskCommands::Add { desc, priority, parent } => match parent {
                None => r matches Ok(rep) && task_added(
                    *old(project),
                    *final(project),
                    desc,
                    priority,
                    final(project).tasks@.last(),
                ) && reports_task(rep, Action::Added, final(project).tasks@.last()),
                Some(tid) => subtask_outcome(
                    r,
                    Action::Added,
                    |x: Result<Subtask, AppError>|
                        subtask_added(*old(project), *final(project), tid, desc, priority, x),
                ),
            },
            TaskCommands::Start { tid } => task_outcome(
                r,
                Action::Started,
                |x: Result<Task, AppError>| task_activated(*old(project), *final(project), tid, x),
            ),
            TaskCommands::Complete { tref } => match resolved_ref(*old(project), tref) {
                Err(e) => r == Err::<TaskReport, AppError>(e) && *final(project) == *old(project),
                Ok(t) => match t.subtask {
                    Some(sid) => subtask_outcome(
                        r,
                        Action::Done,
                        |x: Result<Subtask, AppError>|
                            subtask_set_done(*old(project), *final(project), t.task, sid, true, x),
                    ),
                    None => task_outcome(
                        r,
                        Action::Done,
                        |x: Result<Task, AppError>|
                            task_moved(*old(project), *final(project), t.task, Status::Completed, x),
                    ),
                },
            },
            TaskCommands::Move { status, tref } => match resolved_ref(*old(project), tref) {
                Err(e) => r == Err::<TaskReport, AppError>(e) && *final(project) == *old(project),
                Ok(t) => match t.subtask {
                    Some(sid) => match status {
                        Status::Completed => subtask_outcome(
                            r,
                            Action::Moved,
                            |x: Result<Subtask, AppError>|
                                subtask_set_done(*old(project), *final(project), t.task, sid, true, x),
                        ),
                        Status::New => subtask_outcome(
                            r,
                            Action::Moved,
                            |x: Result<Subtask, AppError>|
                                subtask_set_done(*old(project), *final(project), t.task, sid, false, x),
                        ),
                        Status::InProgress => r == Err::<TaskReport, AppError>(
                            AppError::InvalidStatusTransition { id: t.task },
                        ) && *final(project) == *old(project),
                    },
                    None => task_outcome(
                        r,
                        Action::Moved,
                        |x: Result<Task, AppError>|
                            task_moved(*old(project), *final(project), t.task, status, x),
                    ),
                },
            },
            TaskCommands::Delete { tref } => match tref.subtask {
                Some(sid) => subtask_outcome(
                    r,
                    Action::Removed,
                    |x: Result<Subtask, AppError>|
                        subtask_deleted(*old(project), *final(project), tref.task, sid, x),
                ),
                None => task_outcome(
                    r,
                    Action::Removed,
                    |x: Result<Task, AppError>|
                        task_deleted(*old(project), *final(project), tref.task, x),
                ),
            },
            TaskCommands::Edit { tref, desc, priority } => match resolved_ref(*old(project), tref) {
                Err(e) => r == Err::<TaskReport, AppError>(e) && *final(project) == *old(project),
                Ok(t) => match t.subtask {
                    Some(sid) => subtask_outcome(
                        r,
                        Action::Updated,
                        |x: Result<Subtask, AppError>|
                            subtask_changed(
                                *old(project),
                                *final(project),
                                t.task,
                                sid,
                                desc,
                                priority,
                                x,
                            ),
                    ),
                    None => task_outcome(
                        r,
                        Action::Updated,
                        |x: Result<Task, AppError>|
                            task_edited(*old(project), *final(project), t.task, desc, priority, x),
                    ),
                },
            },
        },
        old(project).wf() ==> final(project).wf(),
{
    match command {
        TaskCommands::Ls { status, pending } => {
            let filter = if pending {
                let mut v: Vec<Status> = Vec::new();
                v.push(Status::New);
                v.push(Status::InProgress);
                Some(v)
            } else {
                match status {
                    Some(s) => {
                        let mut v: Vec<Status> = Vec::new();
                        v.push(s);
                        Some(v)
                    },
                    None => None,
                }
            };
            proof {
                if filter is Some {
                    assert(filter->0@ =~= listing_filter(status, pending)->0);
                }
            }
            Ok(TaskReport::Listed { filter })
        },
        TaskCommands::Add { desc, priority, parent } => match parent {
            Some(tid) => {
                let ghost d = desc;
                let s = project.add_subtask(tid, desc, priority)?;
                let ghost sv = *s;
                let line = s.display();
                let rep = TaskReport::Subtask { action: Action::Added, line };
                assert(reports_subtask(rep, Action::Added, sv));
                assert(subtask_added(*old(project), *project, tid, d, priority, Ok(sv)));
                Ok(rep)
            },
            None => {
                let task = project.add_task(desc, priority);
                let rep = TaskReport::Task { action: Action::Added, task: summary(task) };
                Ok(rep)
            },
        },
        TaskCommands::Start { tid } => {
            let task = project.set_active_task(tid)?;
            let ghost tv = *task;
            let rep = TaskReport::Task { action: Action::Started, task: summary(task) };
            proof {
                let o = old(project).tasks@;
                let i = choose|i: int|
                    first_task_at(o, tid, i) && tv == o[i].with_status(Status::InProgress);
                assert(project.tasks@ == o.update(i, tv));
                if old(project).wf() {
                    assert(o[i].wf());
                    lemma_replace_keeps_wf(*old(project), *project, i, tv);
                }
            }
            assert(reports_task(rep, Action::Started, tv));
            assert(task_activated(*old(project), *project, tid, Ok(tv)));
            Ok(rep)
        },
        TaskCommands::Complete { tref } => {
            let r = tref_or_active(project, tref)?;
            match r.subtask {
                Some(sid) => {
                    let s = project.complete_subtask(r.task, sid)?;
                    let ghost sv = *s;
                    let line = s.display();
                    let rep = TaskReport::Subtask { action: Action::Done, line };
                    assert(reports_subtask(rep, Action::Done, sv));
                    assert(subtask_set_done(*old(project), *project, r.task, sid, true, Ok(sv)));
                    Ok(rep)
                },
                None => {
                    let task = project.move_task(r.task, Status::Completed)?;
                    let ghost tv = *task;
                    let rep = TaskReport::Task { action: Action::Done, task: summary(task) };
                    assert(reports_task(rep, Action::Done, tv));
                    assert(task_moved(*old(project), *project, r.task, Status::Completed, Ok(tv)));
                    Ok(rep)
                },
            }
        },
        TaskCommands::Move { status, tref } => {
            let r = tref_or_active(project, tref)?;
            match r.subtask {
                Some(sid) => match status {
                    Status::Completed => {
                        let s = project.complete_subtask(r.task, sid)?;
                        let ghost sv = *s;
                        let line = s.display();
                        let rep = TaskReport::Subtask { action: Action::Moved, line };
                        assert(reports_subtask(rep, Action::Moved, sv));
                        assert(subtask_set_done(*old(project), *project, r.task, sid, true, Ok(sv)));
                        Ok(rep)
                    },
                    Status::New => {
                        let s = project.uncomplete_subtask(r.task, sid)?;
                        let ghost sv = *s;
                        let line = s.display();
                        let rep = TaskReport::Subtask { action: Action::Moved, line };
                        assert(reports_subtask(rep, Action::Moved, sv));
                        assert(subtask_set_done(*old(project), *project, r.task, sid, false, Ok(sv)));
                        Ok(rep)
                    },
                    Status::InProgress => Err(AppError::InvalidStatusTransition { id: r.task }),
                },
                None => {
                    let task = project.move_task(r.task, status)?;
                    let ghost tv = *task;
                    let rep = TaskReport::Task { action: Action::Moved, task: summary(task) };
                    assert(reports_task(rep, Action::Moved, tv));
                    assert(task_moved(*old(project), *project, r.task, status, Ok(tv)));
                    Ok(rep)
                },
            }
        },
        TaskCommands::Delete { tref } => match tref.subtask {
            Some(sid) => {
                let s = project.delete_subtask(tref.task, sid)?;
                let line = s.display();
                let rep = TaskReport::Subtask { action: Action::Removed, line };
                assert(reports_subtask(rep, Action::Removed, s));
                Ok(rep)
            },
            None => {
                let task = project.delete_task(tref.task)?;
                let rep = TaskReport::Task { action: Action::Removed, task: summary(&task) };
                assert(reports_task(rep, Action::Removed, task));
                Ok(rep)
            },
        },
        TaskCommands::Edit { tref, desc, priority } => {
            let r = tref_or_active(project, tref)?;
            let ghost d = desc;
            match r.subtask {
                Some(sid) => {
                    let s = project.edit_subtask(r.task, sid, desc, priority)?;
                    let ghost sv = *s;
                    let line = s.display();
                    let rep = TaskReport::Subtask { action: Action::Updated, line };
                    assert(reports_subtask(rep, Action::Updated, sv));
                    assert(subtask_changed(*old(project), *project, r.task, sid, d, priority, Ok(sv)));
                    Ok(rep)
                },
                None => {
                    let task = project.edit_task(r.task, desc, priority)?;
                    let ghost tv = *task;
                    let rep = TaskReport::Task { action: Action::Updated, task: summary(task) };
                    assert(reports_task(rep, Action::Updated, tv));
                    assert(task_edited(*old(project), *project, r.task, d, priority, Ok(tv)));
                    Ok(rep)
                },
            }
        },
    }
}

} // verus!
