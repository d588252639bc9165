//! The single place where the interface changes state.
//!
//! `App::apply` performs one effect. It returns whether the workspace
//! changed in a way that must be saved; saving is left to the caller.

use std::collections::HashSet;
use vstd::prelude::*;

use crate::error::{error_message, AppError};
use crate::models::priority::Priority;
use crate::models::project::{
    first_task_at, has_task, lemma_first_task_unique, lemma_replace_keeps_wf, read_subtask, subtask_added,
    subtask_deleted, subtask_lookup_failed, subtask_set_done, task_added, task_deleted,
    task_id_bound, task_replaced, Project,
};
use crate::models::status::Status;
use crate::models::subtask::Subtask;
use crate::models::task::{
    first_subtask_at, lemma_first_subtask_unique, refused_status, refused_status_error, status_allowed, Task,
};
use crate::text::{pop_char, push_char};
use crate::tui::app::{other_focus, App, AppState, ProjectFocus, ScreenMode, TreeRowId, TreeState};
use crate::tui::draft::Draft;
use crate::tui::effect::Effect;
use crate::tui::overlay::Overlay;
use crate::tui::tree::{
    cursor_index, flatten, flatten_spec, index_of, is_child_of, lemma_same_rows_ids, row_ids,
    TreeRow,
};
use crate::workspace::first_project_at;

verus! {

broadcast use vstd::std_specs::hash::group_hash_axioms;

/// The status the space bar moves a task to: `New` to `InProgress` to
/// `Completed` and back to `New`.
pub open spec fn cycled(s: Status) -> Status {
    match s {
        Status::New => Status::InProgress,
        Status::InProgress => Status::Completed,
        Status::Completed => Status::New,
    }
}

/// The first id of `ids`, if any.
pub open spec fn first_id(ids: Seq<TreeRowId>) -> Option<TreeRowId> {
    if ids.len() > 0 {
        Some(ids[0])
    } else {
        None
    }
}

/// The row ids of the tree of project `i`.
pub open spec fn tree_ids(s: AppState, i: usize) -> Seq<TreeRowId> {
    row_ids(flatten_spec(s.projects[i as int], s.expanded))
}

/// Where the cursor sits in `ids`: its position, or 0 when it is not there.
pub open spec fn cursor_at(ids: Seq<TreeRowId>, c: TreeRowId) -> int {
    match index_of(ids, c) {
        Some(k) => k as int,
        None => 0,
    }
}

/// The cursor after `j`: the first row when there is no cursor, else the
/// row after the cursor's, if any.
pub open spec fn moved_down(s: AppState) -> Option<TreeRowId> {
    match s.p_idx {
        None => s.cursor,
        Some(i) => {
            let ids = tree_ids(s, i);
            match s.cursor {
                None => first_id(ids),
                Some(c) => if cursor_at(ids, c) + 1 < ids.len() {
                    Some(ids[cursor_at(ids, c) + 1])
                } else {
                    s.cursor
                },
            }
        },
    }
}

/// The cursor after `k`: the last row when there is no cursor, else the
/// row before the cursor's, if any.
pub open spec fn moved_up(s: AppState) -> Option<TreeRowId> {
    match s.p_idx {
        None => s.cursor,
        Some(i) => {
            let ids = tree_ids(s, i);
            match s.cursor {
                None => if ids.len() > 0 {
                    Some(ids.last())
                } else {
                    None
                },
                Some(c) => if 0 < cursor_at(ids, c) <= ids.len() {
                    Some(ids[cursor_at(ids, c) - 1])
                } else {
                    s.cursor
                },
            }
        },
    }
}

/// Whether `j` is the first row of a subtask of task `tid` in `ids`.
pub open spec fn first_child_at(ids: Seq<TreeRowId>, tid: u32, j: int) -> bool {
    &&& 0 <= j < ids.len()
    &&& is_child_of(ids[j], tid)
    &&& forall|m: int| 0 <= m < j ==> !is_child_of(#[trigger] ids[m], tid)
}

/// Whether the first task with id `tid` has subtasks.
pub open spec fn has_subtasks(p: Project, tid: u32) -> bool {
    exists|k: int| first_task_at(p.tasks@, tid, k) && p.tasks@[k].subtasks@.len() > 0
}

/// `l` on the tree: on a task with subtasks, expand it if collapsed, else
/// move the cursor to its first subtask; otherwise nothing.
pub open spec fn expanded_or_descended(s: AppState) -> AppState {
    match (s.cursor, s.p_idx) {
        (Some(TreeRowId::Task(tid)), Some(i)) => if !has_subtasks(s.projects[i as int], tid) {
            s
        } else if s.expanded.contains(tid) {
            let ids = tree_ids(s, i);
            if exists|j: int| first_child_at(ids, tid, j) {
                AppState { cursor: Some(ids[choose|j: int| first_child_at(ids, tid, j)]), ..s }
            } else {
                s
            }
        } else {
            AppState { expanded: s.expanded.insert(tid), ..s }
        },
        _ => s,
    }
}

/// `h` on the tree: collapse a task, or move from a subtask to its task.
pub open spec fn collapsed_or_ascended(s: AppState) -> AppState {
    match s.cursor {
        Some(TreeRowId::Task(tid)) => AppState { expanded: s.expanded.remove(tid), ..s },
        Some(TreeRowId::Subtask { task, .. }) => AppState {
            cursor: Some(TreeRowId::Task(task)),
            ..s
        },
        None => s,
    }
}

/// `n` is `c` with project `i` replaced by `p`.
pub open spec fn with_project(c: AppState, i: usize, p: Project) -> AppState {
    AppState { projects: c.projects.update(i as int, p), ..c }
}

/// A new project: appended with the id the number of projects had, made
/// active and opened (at the first position holding that id), with the
/// tree reset and focused.
pub open spec fn project_created(c: AppState, n: AppState, name: String) -> bool {
    let id = c.projects.len() as u32;
    &&& n.projects.len() == c.projects.len() + 1
    &&& n.projects.drop_last() == c.projects
    &&& n.projects.last().id == id
    &&& n.projects.last().name == name
    &&& n.projects.last().tasks@.len() == 0
    &&& n.projects.last().active_task_id is None
    &&& exists|k: int|
        first_project_at(n.projects, id, k) && n == AppState {
            projects: n.projects,
            active_project_id: Some(id),
            p_idx: Some(k as usize),
            sidebar_cursor: k as usize,
            expanded: Set::empty(),
            cursor: None,
            focus: ProjectFocus::Tree,
            draft: None,
            ..c
        }
}

/// Space on subtask `sid` of task `tid` in project `i`: its completion is
/// flipped and the task's status re-derived; or the lookup error.
pub open spec fn subtask_toggled(
    c: AppState,
    n: AppState,
    i: usize,
    tid: u32,
    sid: u32,
    r: Result<bool, AppError>,
) -> bool {
    let op = c.projects[i as int];
    match r {
        Err(e) => subtask_lookup_failed(op, tid, sid, e) && n == c,
        Ok(saved) => {
            &&& saved
            &&& n == with_project(c, i, n.projects[i as int])
            &&& exists|done: bool, s: Subtask|
                {
                    &&& subtask_set_done(op, n.projects[i as int], tid, sid, done, Ok(s))
                    &&& forall|k: int, j: int|
                        first_task_at(op.tasks@, tid, k) && first_subtask_at(
                            op.tasks@[k].subtasks@,
                            sid,
                            j,
                        ) ==> done != op.tasks@[k].subtasks@[j].completed
                }
        },
    }
}

/// Space on task `tid` in project `i`: its status moves to the next one in
/// the cycle when its subtasks allow it; otherwise the refusal is shown as
/// the error and nothing changes.
pub open spec fn task_toggled(
    c: AppState,
    n: AppState,
    i: usize,
    tid: u32,
    r: Result<bool, AppError>,
) -> bool {
    let op = c.projects[i as int];
    if !has_task(op.tasks@, tid) {
        r == Err::<bool, AppError>(AppError::TaskNotFound { id: tid }) && n == c
    } else {
        forall|k: int|
            first_task_at(op.tasks@, tid, k) ==> {
                let next = cycled(op.tasks@[k].status);
                if status_allowed(op.tasks@[k].subtasks@, next) {
                    &&& r == Ok::<bool, AppError>(true)
                    &&& task_replaced(op, n.projects[i as int], k, op.tasks@[k].with_status(next))
                    &&& n == with_project(c, i, n.projects[i as int])
                } else {
                    &&& r == Ok::<bool, AppError>(false)
                    &&& n == AppState {
                        error: Some(error_message(refused_status_error(tid, next))),
                        ..c
                    }
                }
            }
    }
}

/// A new task in project `i`: appended (see `task_added`) with the
/// description, medium priority and the next task id, the cursor on it and
/// the draft closed.
pub open spec fn task_created(c: AppState, n: AppState, i: usize, description: String) -> bool {
    let op = c.projects[i as int];
    let np = n.projects[i as int];
    &&& task_added(op, np, description, Priority::Medium, np.tasks@.last())
    &&& n == AppState {
        cursor: Some(TreeRowId::Task(task_id_bound(op.tasks@) as u32)),
        draft: None,
        ..with_project(c, i, np)
    }
}

/// Task `tid` deleted from project `i` (see `task_deleted`), the cursor
/// moved to the first row of the tree; or the lookup error.
pub open spec fn task_removed(
    c: AppState,
    n: AppState,
    i: usize,
    tid: u32,
    r: Result<bool, AppError>,
) -> bool {
    let op = c.projects[i as int];
    let np = n.projects[i as int];
    match r {
        Err(err) => task_deleted(op, op, tid, Err(err)) && n == c,
        Ok(saved) => {
            &&& saved
            &&& exists|t: Task| task_deleted(op, np, tid, Ok(t))
            &&& n == AppState {
                cursor: first_id(row_ids(flatten_spec(np, c.expanded))),
                ..with_project(c, i, np)
            }
        },
    }
}

/// A new subtask of task `tid` in project `i` (see `subtask_added`), with
/// the task expanded, the cursor on the subtask and the draft closed; or
/// the lookup error.
pub open spec fn subtask_created(
    c: AppState,
    n: AppState,
    i: usize,
    tid: u32,
    description: String,
    r: Result<bool, AppError>,
) -> bool {
    let op = c.projects[i as int];
    let np = n.projects[i as int];
    match r {
        Err(err) => subtask_added(op, op, tid, description, Priority::Medium, Err(err)) && n == c,
        Ok(saved) => {
            &&& saved
            &&& exists|s: Subtask|
                {
                    &&& subtask_added(op, np, tid, description, Priority::Medium, Ok(s))
                    &&& n == AppState {
                        expanded: c.expanded.insert(tid),
                        cursor: Some(TreeRowId::Subtask { task: tid, sub: s.id }),
                        draft: None,
                        ..with_project(c, i, np)
                    }
                }
        },
    }
}

/// Subtask `sid` of task `tid` deleted from project `i` (see
/// `subtask_deleted`), the cursor on the task; or the lookup error.
pub open spec fn subtask_removed_at(
    c: AppState,
    n: AppState,
    i: usize,
    tid: u32,
    sid: u32,
    r: Result<bool, AppError>,
) -> bool {
    let op = c.projects[i as int];
    let np = n.projects[i as int];
    match r {
        Err(err) => subtask_deleted(op, op, tid, sid, Err(err)) && n == c,
        Ok(saved) => {
            &&& saved
            &&& exists|s: Subtask| subtask_deleted(op, np, tid, sid, Ok(s))
            &&& n == AppState { cursor: Some(TreeRowId::Task(tid)), ..with_project(c, i, np) }
        },
    }
}

/// What performing `e` does, for every effect but a `ConfirmYes` with the
/// overlay open: `c` is the state with the error cleared (every effect but
/// `ShowError` clears it), `n` the state after, and `r` the result, whose
/// `Ok` value says whether the workspace must be saved.
pub open spec fn applied_one(o: AppState, n: AppState, e: Effect, r: Result<bool, AppError>) -> bool {
    let c = AppState { error: None, ..o };
    match e {
        Effect::Quit => n == AppState { should_quit: true, ..c } && r == Ok::<bool, AppError>(false),
        Effect::NextFocus => n == AppState { focus: other_focus(o.focus), ..c } && r == Ok::<
            bool,
            AppError,
        >(false),
        Effect::SelectNextProject => r == Ok::<bool, AppError>(false) && n == AppState {
            sidebar_cursor: if o.projects.len() > 0 {
                if o.sidebar_cursor + 1 < o.projects.len() {
                    (o.sidebar_cursor + 1) as usize
                } else {
                    (o.projects.len() - 1) as usize
                }
            } else {
                o.sidebar_cursor
            },
            ..c
        },
        Effect::SelectPrevProject => r == Ok::<bool, AppError>(false) && n == AppState {
            sidebar_cursor: if o.sidebar_cursor > 0 {
                (o.sidebar_cursor - 1) as usize
            } else {
                0
            },
            ..c
        },
        Effect::SelectProject { p_idx } => r == Ok::<bool, AppError>(true) && n == AppState {
            p_idx: Some(p_idx),
            expanded: Set::empty(),
            cursor: first_id(
                o.projects[p_idx as int].tasks@.map_values(|t: Task| TreeRowId::Task(t.id)),
            ),
            active_project_id: Some(o.projects[p_idx as int].id),
            ..c
        },
        Effect::TreeMoveDown => r == Ok::<bool, AppError>(false) && n == AppState {
            cursor: moved_down(c),
            ..c
        },
        Effect::TreeMoveUp => r == Ok::<bool, AppError>(false) && n == AppState {
            cursor: moved_up(c),
            ..c
        },
        Effect::TreeExpandOrDescend => r == Ok::<bool, AppError>(false) && n
            == expanded_or_descended(c),
        Effect::TreeCollapseOrAscend => r == Ok::<bool, AppError>(false) && n
            == collapsed_or_ascended(c),
        Effect::EnterInsert(t) => r == Ok::<bool, AppError>(false) && n == AppState {
            draft: Some((Seq::empty(), t)),
            ..c
        },
        Effect::CancelInsert => r == Ok::<bool, AppError>(false) && n == AppState {
            draft: None,
            ..c
        },
        Effect::DraftPush(ch) => r == Ok::<bool, AppError>(false) && n == AppState {
            draft: match o.draft {
                Some((text, t)) => Some((text.push(ch), t)),
                None => None,
            },
            ..c
        },
        Effect::DraftPop => r == Ok::<bool, AppError>(false) && n == AppState {
            draft: match o.draft {
                Some((text, t)) => Some(
                    (
                        if text.len() > 0 {
                            text.drop_last()
                        } else {
                            text
                        },
                        t,
                    ),
                ),
                None => None,
            },
            ..c
        },
        Effect::OpenOverlay(ov) => r == Ok::<bool, AppError>(false) && n == AppState {
            overlay: Some(ov),
            ..c
        },
        Effect::CloseOverlay => r == Ok::<bool, AppError>(false) && n == AppState {
            overlay: None,
            ..c
        },
        Effect::ShowError(m) => r == Ok::<bool, AppError>(false) && n == AppState {
            error: Some(m@),
            ..o
        },
        Effect::CreateProject { name } => r == Ok::<bool, AppError>(true) && project_created(
            c,
            n,
            name,
        ),
        Effect::CreateTask { p_idx, description } => r == Ok::<bool, AppError>(true)
            && task_created(c, n, p_idx, description),
        Effect::DeleteTask { p_idx, task_id } => task_removed(c, n, p_idx, task_id, r),
        Effect::CreateSubtask { p_idx, task_id, description } => subtask_created(
            c,
            n,
            p_idx,
            task_id,
            description,
            r,
        ),
        Effect::DeleteSubtask { p_idx, task_id, sub_id } => subtask_removed_at(
            c,
            n,
            p_idx,
            task_id,
            sub_id,
            r,
        ),
        Effect::ToggleStatus(row) => match (o.p_idx, row) {
            (None, _) => r == Ok::<bool, AppError>(false) && n == c,
            (Some(i), TreeRowId::Subtask { task, sub }) => subtask_toggled(c, n, i, task, sub, r),
            (Some(i), TreeRowId::Task(tid)) => task_toggled(c, n, i, tid, r),
        },
        Effect::ConfirmYes => r == Ok::<bool, AppError>(false) && n == c,
    }
}

/// What performing `e` does: a `ConfirmYes` with the confirm overlay open
/// closes it, clears the error and performs the effect it held; any other
/// effect is performed as `applied_one` says.
pub open spec fn applied(o: AppState, n: AppState, e: Effect, r: Result<bool, AppError>) -> bool {
    match (e, o.overlay) {
        (Effect::ConfirmYes, Some(Overlay::Confirm(c))) => applied_one(
            AppState { overlay: None, error: None, ..o },
            n,
            *c.on_confirm,
            r,
        ),
        _ => applied_one(o, n, e, r),
    }
}

/// Whether the first task with id `tid` (if any) can take one more subtask
/// without its next subtask id overflowing.
pub open spec fn subtask_room(p: Project, tid: u32) -> bool {
    forall|k: int|
        #[trigger] first_task_at(p.tasks@, tid, k) ==> p.tasks@[k].next_subtask_id < u32::MAX
}

/// Whether `e` can be performed on `s` (the interface panics otherwise):
/// an effect naming a project needs that project to exist, and creating a
/// task or a subtask needs its id to fit in a `u32`.
pub open spec fn fits_one(s: AppState, e: Effect) -> bool {
    match e {
        Effect::SelectProject { p_idx } => p_idx < s.projects.len(),
        Effect::CreateTask { p_idx, .. } => p_idx < s.projects.len() && task_id_bound(
            s.projects[p_idx as int].tasks@,
        ) <= u32::MAX,
        Effect::DeleteTask { p_idx, .. } => p_idx < s.projects.len(),
        Effect::CreateSubtask { p_idx, task_id, .. } => p_idx < s.projects.len() && subtask_room(
            s.projects[p_idx as int],
            task_id,
        ),
        Effect::DeleteSubtask { p_idx, .. } => p_idx < s.projects.len(),
        _ => true,
    }
}

/// Whether `e` can be performed on `s`; for `ConfirmYes`, the effect held
/// by the overlay.
pub open spec fn fits(s: AppState, e: Effect) -> bool {
    match (e, s.overlay) {
        (Effect::ConfirmYes, Some(Overlay::Confirm(c))) => fits_one(s, *c.on_confirm),
        _ => fits_one(s, e),
    }
}

impl App {
    /// Whether `effect` can be performed now (see `fits`).
    pub fn accepts(&self, effect: &Effect) -> (b: bool)
        ensures
            b == fits(self@, *effect),
    {
        match effect {
            Effect::ConfirmYes => match &self.overlay {
                Some(Overlay::Confirm(c)) => self.accepts_one(&*c.on_confirm),
                None => true,
            },
            _ => self.accepts_one(effect),
        }
    }

    /// Whether `effect` can be performed now (see `fits_one`).
    fn accepts_one(&self, effect: &Effect) -> (b: bool)
        ensures
            b == fits_one(self@, *effect),
    {
        let n: usize = self.workspace.projects.len();
        match effect {
            Effect::SelectProject { p_idx } => *p_idx < n,
            Effect::CreateTask { p_idx, .. } => *p_idx < n
                && self.workspace.projects[*p_idx].task_id_ceiling() <= u32::MAX as u64,
            Effect::DeleteTask { p_idx, .. } => *p_idx < n,
            Effect::CreateSubtask { p_idx, task_id, .. } => {
                if *p_idx >= n {
                    return false;
                }
                let project = &self.workspace.projects[*p_idx];
                match project.get_task(*task_id) {
                    Ok(k) => {
                        proof {
                            lemma_first_task_unique(project.tasks@, *task_id, k as int);
                        }
                        project.tasks[k].next_subtask_id < u32::MAX
                    },
                    Err(_) => true,
                }
            },
            Effect::DeleteSubtask { p_idx, .. } => *p_idx < n,
            _ => true,
        }
    }

    /// Performs `effect` (see `applied`). The `Ok` value says whether the
    /// workspace changed and must be saved.
    pub fn apply(&mut self, effect: Effect) -> (r: Result<bool, AppError>)
        requires
            old(self)@.wf(),
            fits(old(self)@, effect),
        ensures
            final(self)@.wf(),
            applied(old(self)@, final(self)@, effect, r),
            old(self).workspace.wf() ==> final(self).workspace.wf(),
    {
        if let Effect::ConfirmYes = effect {
            if let Some(Overlay::Confirm(c)) = self.overlay.take() {
                self.error = None;
                return self.apply_one(*c.on_confirm);
            }
        }
        self.apply_one(effect)
    }

    /// Performs `effect` (see `applied_one`).
    fn apply_one(&mut self, effect: Effect) -> (r: Result<bool, AppError>)
        requires
            old(self)@.wf(),
            fits_one(old(self)@, effect),
        ensures
            final(self)@.wf(),
            applied_one(old(self)@, final(self)@, effect, r),
            old(self).workspace.wf() ==> final(self).workspace.wf(),
    {
        if let Effect::ShowError(msg) = effect {
            self.error = Some(msg);
            return Ok(false);
        }
        self.error = None;
        match effect {
            Effect::Quit => {
                self.should_quit = true;
                Ok(false)
            },
            Effect::NextFocus => {
                self.screen.focus = self.screen.focus.next();
                Ok(false)
            },
            Effect::SelectNextProject => {
                let len: usize = self.workspace.projects.len();
                if len > 0 {
                    self.screen.sidebar_cursor = if self.screen.sidebar_cursor < len - 1 {
                        self.screen.sidebar_cursor + 1
                    } else {
                        len - 1
                    };
                }
                Ok(false)
            },
            Effect::SelectPrevProject => {
                if self.screen.sidebar_cursor > 0 {
                    self.screen.sidebar_cursor = self.screen.sidebar_cursor - 1;
                }
                Ok(false)
            },
            Effect::SelectProject { p_idx } => {
                self.select_project(p_idx);
                Ok(true)
            },
            Effect::TreeMoveDown => {
                self.tree_move_down();
                Ok(false)
            },
            Effect::TreeMoveUp => {
                self.tree_move_up();
                Ok(false)
            },
            Effect::TreeExpandOrDescend => {
                self.tree_expand_or_descend();
                Ok(false)
            },
            Effect::TreeCollapseOrAscend => {
                match self.screen.tree.cursor {
                    Some(TreeRowId::Task(tid)) => {
                        self.screen.tree.expanded.remove(&tid);
                    },
                    Some(TreeRowId::Subtask { task: tid, .. }) => {
                        self.screen.tree.cursor = Some(TreeRowId::Task(tid));
                    },
                    None => {},
                }
                Ok(false)
            },
            Effect::EnterInsert(target) => {
                self.screen.mode = ScreenMode::Insert(Draft::new(target));
                Ok(false)
            },
            Effect::CancelInsert => {
                self.screen.mode = ScreenMode::Navigate;
                Ok(false)
            },
            Effect::DraftPush(c) => {
                if let ScreenMode::Insert(d) = &mut self.screen.mode {
                    push_char(&mut d.text, c);
                }
                Ok(false)
            },
            Effect::DraftPop => {
                if let ScreenMode::Insert(d) = &mut self.screen.mode {
                    pop_char(&mut d.text);
                }
                Ok(false)
            },
            Effect::OpenOverlay(o) => {
                self.overlay = Some(o);
                Ok(false)
            },
            Effect::CloseOverlay => {
                self.overlay = None;
                Ok(false)
            },
            Effect::ConfirmYes => Ok(false),
            Effect::ShowError(_) => Ok(false),
            Effect::CreateProject { name } => {
                self.create_project(name);
                Ok(true)
            },
            Effect::CreateTask { p_idx, description } => {
                self.create_task(p_idx, description);
                Ok(true)
            },
            Effect::DeleteTask { p_idx, task_id } => self.delete_task(p_idx, task_id),
            Effect::CreateSubtask { p_idx, task_id, description } => self.create_subtask(
                p_idx,
                task_id,
                description,
            ),
            Effect::DeleteSubtask { p_idx, task_id, sub_id } => self.delete_subtask(
                p_idx,
                task_id,
                sub_id,
            ),
            Effect::ToggleStatus(row) => match (self.screen.p_idx, row) {
                (None, _) => Ok(false),
                (Some(i), TreeRowId::Subtask { task, sub }) => self.toggle_subtask(i, task, sub),
                (Some(i), TreeRowId::Task(tid)) => self.toggle_task(i, tid),
            },
        }
    }

    /// Opens project `p_idx` with its tree collapsed and the cursor on its first
    /// task, and makes it the active project.
    fn select_project(&mut self, p_idx: usize)
        requires
            old(self)@.wf(),
            p_idx < old(self)@.projects.len(),
        ensures
            final(self)@ == (AppState {
                p_idx: Some(p_idx),
                expanded: Set::empty(),
                cursor: first_id(
                    old(self)@.projects[p_idx as int].tasks@.map_values(
                        |t: Task| TreeRowId::Task(t.id),
                    ),
                ),
                active_project_id: Some(old(self)@.projects[p_idx as int].id),
                ..old(self)@
            }),
            old(self).workspace.wf() ==> final(self).workspace.wf(),
    {
        self.screen.p_idx = Some(p_idx);
        let project = &self.workspace.projects[p_idx];
        let initial_cursor = if project.tasks.len() > 0 {
            Some(TreeRowId::Task(project.tasks[0].id))
        } else {
            None
        };
        let pid: u32 = project.id;
        self.screen.tree = TreeState { expanded: HashSet::new(), cursor: initial_cursor };
        proof {
            assert(self.workspace.projects@[p_idx as int].id == pid);
        }
        let _ = self.workspace.set_active_project(pid);
        assert(self.workspace.projects@ =~= old(self).workspace.projects@);
    }

    /// Moves the tree cursor down (see `moved_down`).
    fn tree_move_down(&mut self)
        requires
            old(self)@.wf(),
        ensures
            final(self)@ == (AppState { cursor: moved_down(old(self)@), ..old(self)@ }),
    {
        if let Some(p_idx) = self.screen.p_idx {
            let rows = flatten(&self.workspace.projects[p_idx], &self.screen.tree.expanded);
            proof {
                lemma_same_rows_ids(rows@, flatten_spec(self.workspace.projects@[p_idx as int], self.screen.tree.expanded@));
            }
            match self.screen.tree.cursor {
                None => {
                    if rows.len() > 0 {
                        self.screen.tree.cursor = Some(rows[0].id);
                    } else {
                        self.screen.tree.cursor = None;
                    }
                },
                Some(c) => {
                    let current: usize = match cursor_index(rows.as_slice(), c) {
                        Some(k) => k,
                        None => 0,
                    };
                    if rows.len() > 0 && current < rows.len() - 1 {
                        self.screen.tree.cursor = Some(rows[current + 1].id);
                    }
                },
            }
        }
    }

    /// Moves the tree cursor up (see `moved_up`).
    fn tree_move_up(&mut self)
        requires
            old(self)@.wf(),
        ensures
            final(self)@ == (AppState { cursor: moved_up(old(self)@), ..old(self)@ }),
    {
        if let Some(p_idx) = self.screen.p_idx {
            let rows = flatten(&self.workspace.projects[p_idx], &self.screen.tree.expanded);
            proof {
                lemma_same_rows_ids(rows@, flatten_spec(self.workspace.projects@[p_idx as int], self.screen.tree.expanded@));
            }
            match self.screen.tree.cursor {
                None => {
                    if rows.len() > 0 {
                        self.screen.tree.cursor = Some(rows[rows.len() - 1].id);
                    } else {
                        self.screen.tree.cursor = None;
                    }
                },
                Some(c) => {
                    let current: usize = match cursor_index(rows.as_slice(), c) {
                        Some(k) => k,
                        None => 0,
                    };
                    if current > 0 && current <= rows.len() {
                        self.screen.tree.cursor = Some(rows[current - 1].id);
                    }
                },
            }
        }
    }

    /// Expands the task under the cursor, or moves to its first subtask (see
    /// `expanded_or_descended`).
    fn tree_expand_or_descend(&mut self)
        requires
            old(self)@.wf(),
        ensures
            final(self)@ == expanded_or_descended(old(self)@),
    {
        let tid: u32 = match self.screen.tree.cursor {
            Some(TreeRowId::Task(tid)) => tid,
            _ => return ,
        };
        let p_idx: usize = match self.screen.p_idx {
            Some(i) => i,
            None => return ,
        };
        let project = &self.workspace.projects[p_idx];
        let has_subs = match project.get_task(tid) {
            Ok(k) => {
                proof {
                    lemma_first_task_unique(project.tasks@, tid, k as int);
                }
                project.tasks[k].subtasks.len() > 0
            },
            Err(_) => false,
        };
        if !has_subs {
            return ;
        }
        if self.screen.tree.expanded.contains(&tid) {
            let rows = flatten(project, &self.screen.tree.expanded);
            proof {
                lemma_same_rows_ids(rows@, flatten_spec(self.workspace.projects@[p_idx as int], self.screen.tree.expanded@));
            }
            if let Some(j) = first_child_row(&rows, tid) {
                self.screen.tree.cursor = Some(rows[j].id);
            }
        } else {
            self.screen.tree.expanded.insert(tid);
        }
    }

    /// Adds a project, opens it and makes it active (see `project_created`).
    fn create_project(&mut self, name: String)
        requires
            old(self)@.wf(),
        ensures
            final(self)@.wf(),
            project_created(old(self)@, final(self)@, name),
            old(self).workspace.wf() ==> final(self).workspace.wf(),
    {
        let new_id: u32 = self.workspace.add_project(name).id;
        let p_idx: usize = match self.workspace.get_project(new_id) {
            Ok(i) => i,
            Err(_) => {
                proof {
                    let n = self.workspace.projects@.len();
                    assert(self.workspace.projects@[n - 1].id == new_id);
                }
                return ;
            },
        };
        self.screen.p_idx = Some(p_idx);
        self.screen.sidebar_cursor = p_idx;
        self.screen.tree = TreeState { expanded: HashSet::new(), cursor: None };
        self.screen.focus = ProjectFocus::Tree;
        self.screen.mode = ScreenMode::Navigate;
        let ghost projects = self.workspace.projects@;
        let _ = self.workspace.set_active_project(new_id);
        assert(self.workspace.projects@ =~= projects);
    }

    /// Adds a task to project `p_idx` (see `task_created`).
    fn create_task(&mut self, p_idx: usize, description: String)
        requires
            old(self)@.wf(),
            old(self)@.error is None,
            p_idx < old(self)@.projects.len(),
            task_id_bound(old(self)@.projects[p_idx as int].tasks@) <= u32::MAX,
        ensures
            final(self)@.wf(),
            task_created(old(self)@, final(self)@, p_idx, description),
            old(self).workspace.wf() ==> final(self).workspace.wf(),
    {
        let new_id: u32 = self.workspace.projects[p_idx].add_task(description, Priority::Medium).id;
        self.screen.tree.cursor = Some(TreeRowId::Task(new_id));
        self.screen.mode = ScreenMode::Navigate;
        proof {
            lemma_one_project_changed(
                old(self).workspace.projects@,
                self.workspace.projects@,
                p_idx as int,
            );
        }
    }

    /// Deletes task `task_id` of project `p_idx` (see `task_removed`).
    fn delete_task(&mut self, p_idx: usize, task_id: u32) -> (r: Result<bool, AppError>)
        requires
            old(self)@.wf(),
            old(self)@.error is None,
            p_idx < old(self)@.projects.len(),
        ensures
            final(self)@.wf(),
            task_removed(old(self)@, final(self)@, p_idx, task_id, r),
            old(self).workspace.wf() ==> final(self).workspace.wf(),
    {
        let removed = match self.workspace.projects[p_idx].delete_task(task_id) {
            Err(e) => {
                assert(self.workspace.projects@ =~= old(self).workspace.projects@);
                return Err(e);
            },
            Ok(t) => t,
        };
        assert(task_deleted(
            old(self)@.projects[p_idx as int],
            self.workspace.projects@[p_idx as int],
            task_id,
            Ok(removed),
        ));
        let rows = flatten(&self.workspace.projects[p_idx], &self.screen.tree.expanded);
        proof {
            lemma_same_rows_ids(rows@, flatten_spec(self.workspace.projects@[p_idx as int], self.screen.tree.expanded@));
        }
        self.screen.tree.cursor = if rows.len() > 0 {
            Some(rows[0].id)
        } else {
            None
        };
        proof {
            lemma_one_project_changed(
                old(self).workspace.projects@,
                self.workspace.projects@,
                p_idx as int,
            );
        }
        Ok(true)
    }

    /// Adds a subtask to task `task_id` of project `p_idx` (see
    /// `subtask_created`).
    fn create_subtask(&mut self, p_idx: usize, task_id: u32, description: String) -> (r: Result<
        bool,
        AppError,
    >)
        requires
            old(self)@.wf(),
            old(self)@.error is None,
            p_idx < old(self)@.projects.len(),
            subtask_room(old(self)@.projects[p_idx as int], task_id),
        ensures
            final(self)@.wf(),
            subtask_created(old(self)@, final(self)@, p_idx, task_id, description, r),
            old(self).workspace.wf() ==> final(self).workspace.wf(),
    {
        assert(subtask_room(self.workspace.projects@[p_idx as int], task_id));
        let res = self.workspace.projects[p_idx].add_subtask(
            task_id,
            description,
            Priority::Medium,
        );
        let ghost added = read_subtask(res);
        let sub_id: u32 = match res {
            Err(e) => {
                assert(self.workspace.projects@ =~= old(self).workspace.projects@);
                return Err(e);
            },
            Ok(s) => s.id,
        };
        self.screen.tree.expanded.insert(task_id);
        self.screen.tree.cursor = Some(TreeRowId::Subtask { task: task_id, sub: sub_id });
        self.screen.mode = ScreenMode::Navigate;
        proof {
            lemma_one_project_changed(
                old(self).workspace.projects@,
                self.workspace.projects@,
                p_idx as int,
            );
        }
        Ok(true)
    }

    /// Deletes subtask `sub_id` of task `task_id` of project `p_idx` (see
    /// `subtask_removed_at`).
    fn delete_subtask(&mut self, p_idx: usize, task_id: u32, sub_id: u32) -> (r: Result<
        bool,
        AppError,
    >)
        requires
            old(self)@.wf(),
            old(self)@.error is None,
            p_idx < old(self)@.projects.len(),
        ensures
            final(self)@.wf(),
            subtask_removed_at(old(self)@, final(self)@, p_idx, task_id, sub_id, r),
            old(self).workspace.wf() ==> final(self).workspace.wf(),
    {
        let removed = match self.workspace.projects[p_idx].delete_subtask(task_id, sub_id) {
            Err(e) => {
                assert(self.workspace.projects@ =~= old(self).workspace.projects@);
                return Err(e);
            },
            Ok(s) => s,
        };
        assert(subtask_deleted(
            old(self)@.projects[p_idx as int],
            self.workspace.projects@[p_idx as int],
            task_id,
            sub_id,
            Ok(removed),
        ));
        self.screen.tree.cursor = Some(TreeRowId::Task(task_id));
        proof {
            lemma_one_project_changed(
                old(self).workspace.projects@,
                self.workspace.projects@,
                p_idx as int,
            );
        }
        Ok(true)
    }

    /// Flips the completion of subtask `sid` of task `tid` in project `i` (see
    /// `subtask_toggled`).
    fn toggle_subtask(&mut self, i: usize, tid: u32, sid: u32) -> (r: Result<bool, AppError>)
        requires
            old(self)@.wf(),
            i < old(self)@.projects.len(),
        ensures
            final(self)@.wf(),
            subtask_toggled(old(self)@, final(self)@, i, tid, sid, r),
            old(self).workspace.wf() ==> final(self).workspace.wf(),
    {
        let project = &self.workspace.projects[i];
        let k: usize = match project.get_task(tid) {
            Ok(k) => k,
            Err(e) => return Err(e),
        };
        let j: usize = match project.tasks[k].get_subtask(sid) {
            Ok(j) => j,
            Err(e) => {
                proof {
                    lemma_first_task_unique(project.tasks@, tid, k as int);
                }
                return Err(e);
            },
        };
        let was_done = project.tasks[k].subtasks[j].completed;
        proof {
            lemma_first_task_unique(project.tasks@, tid, k as int);
            lemma_first_subtask_unique(project.tasks@[k as int].subtasks@, sid, j as int);
        }
        let res = if was_done {
            self.workspace.projects[i].uncomplete_subtask(tid, sid)
        } else {
            self.workspace.projects[i].complete_subtask(tid, sid)
        };
        let ghost marked = read_subtask(res);
        proof {
            let op = old(self)@.projects[i as int];
            let np = self.workspace.projects@[i as int];
            assert(op.tasks@[k as int].subtasks@[j as int].id == sid);
            if let Ok(s) = marked {
                assert(subtask_set_done(op, np, tid, sid, !was_done, Ok(s)));
            }
        }
        proof {
            lemma_one_project_changed(
                old(self).workspace.projects@,
                self.workspace.projects@,
                i as int,
            );
        }
        Ok(true)
    }

    /// Moves task `tid` of project `i` to the next status (see `task_toggled`).
    fn toggle_task(&mut self, i: usize, tid: u32) -> (r: Result<bool, AppError>)
        requires
            old(self)@.wf(),
            i < old(self)@.projects.len(),
        ensures
            final(self)@.wf(),
            task_toggled(old(self)@, final(self)@, i, tid, r),
            old(self).workspace.wf() ==> final(self).workspace.wf(),
    {
        let k: usize = match self.workspace.projects[i].get_task(tid) {
            Ok(k) => k,
            Err(e) => return Err(e),
        };
        proof {
            lemma_first_task_unique(self.workspace.projects@[i as int].tasks@, tid, k as int);
        }
        let next = match self.workspace.projects[i].tasks[k].status() {
            Status::New => Status::InProgress,
            Status::InProgress => Status::Completed,
            Status::Completed => Status::New,
        };
        if !self.workspace.projects[i].tasks[k].is_status_allowed(&next) {
            let e = refused_status(tid, next);
            self.error = Some(e.message());
            return Ok(false);
        }
        let ghost op = self.workspace.projects@[i as int];
        let _ = self.workspace.projects[i].tasks[k].set_status(next);
        proof {
            let np = self.workspace.projects@[i as int];
            assert(np.tasks@ =~= op.tasks@.update(k as int, op.tasks@[k as int].with_status(next)));
            if old(self).workspace.wf() {
                assert(op.wf());
                lemma_replace_keeps_wf(op, np, k as int, np.tasks@[k as int]);
            }
            lemma_one_project_changed(old(self).workspace.projects@, self.workspace.projects@, i as int);
        }
        Ok(true)
    }
}

/// The position of the first row of a subtask of task `tid`, if any.
fn first_child_row(rows: &Vec<TreeRow>, tid: u32) -> (r: Option<usize>)
    ensures
        match r {
            Some(j) => {
                &&& j < rows@.len()
                &&& first_child_at(row_ids(rows@), tid, j as int)
                &&& j == (choose|x: int| first_child_at(row_ids(rows@), tid, x))
            },
            None => !exists|x: int| first_child_at(row_ids(rows@), tid, x),
        },
{
    let ghost ids = row_ids(rows@);
    let mut j: usize = 0;
    while j < rows.len()
        invariant
            j <= rows@.len(),
            ids == row_ids(rows@),
            forall|m: int| 0 <= m < j ==> !is_child_of(#[trigger] ids[m], tid),
        decreases rows@.len() - j,
    {
        assert(ids[j as int] == rows@[j as int].id);
        let found = match rows[j].id {
            TreeRowId::Subtask { task, .. } => task == tid,
            _ => false,
        };
        if found {
            proof {
                assert(first_child_at(ids, tid, j as int));
                let w = choose|x: int| first_child_at(ids, tid, x);
                if w < j {
                    assert(!is_child_of(ids[w], tid));
                } else if j < w {
                    assert(!is_child_of(ids[j as int], tid));
                }
            }
            return Some(j);
        }
        j = j + 1;
    }
    proof {
        assert forall|x: int| !first_child_at(ids, tid, x) by {
            if 0 <= x < ids.len() {
                assert(!is_child_of(ids[x], tid));
            }
        }
    }
    None
}

/// Changing one project of the workspace in place keeps the others, and
/// keeps the workspace well formed when the changed project stays so.
proof fn lemma_one_project_changed(o: Seq<Project>, w: Seq<Project>, i: int)
    requires
        0 <= i < o.len(),
        w.len() == o.len(),
        forall|k: int| 0 <= k < o.len() && k != i ==> w[k] == o[k],
    ensures
        w == o.update(i, w[i]),
        (forall|k: int| 0 <= k < o.len() ==> #[trigger] o[k].wf()) && w[i].wf() ==> forall|k: int|
            0 <= k < w.len() ==> #[trigger] w[k].wf(),
{
    assert(w =~= o.update(i, w[i]));
}

} // verus!
