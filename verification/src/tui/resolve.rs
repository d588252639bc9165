//! What an intent does: the effects it asks `App::apply` to perform.
//!
//! `resolve` reads the interface and the workspace and changes nothing.

use vstd::prelude::*;

use crate::models::project::{first_task_at, has_task, lemma_first_task_unique};
use crate::text::{trim, trim_spec};
use crate::tui::app::{App, ProjectFocus, ScreenMode, TreeRowId};
use crate::tui::draft::{Draft, InsertTarget};
use crate::tui::effect::Effect;
use crate::tui::intent::{AppIntent, ConfirmIntent, EditIntent, InsertKind, Intent, NavIntent};
use crate::tui::overlay::{ConfirmOverlay, Overlay};
use crate::workspace::Workspace;

verus! {

broadcast use vstd::string::group_string_axioms;

/// The message shown when `I` is pressed on a subtask.
pub open spec fn no_grandchild_message() -> Seq<char> {
    "subtasks can't have children — press `i` for a sibling"@
}

/// The effects of an intent while the confirm overlay is open: `y` runs the
/// stored effect and closes the overlay; anything else only closes it.
pub open spec fn overlay_effects(intent: Intent, effects: Seq<Effect>) -> bool {
    if intent == Intent::Confirm(ConfirmIntent::Yes) {
        effects == seq![Effect::ConfirmYes, Effect::CloseOverlay]
    } else {
        effects == seq![Effect::CloseOverlay]
    }
}

/// The effect of submitting `draft` (trimmed): an empty text cancels; a
/// project draft creates a project; without an open project any other draft
/// cancels; otherwise a task or a subtask is created in the open project.
pub open spec fn submit_effects(p_idx: Option<usize>, draft: Draft, effects: Seq<Effect>) -> bool {
    let text = trim_spec(draft.text@);
    if text.len() == 0 {
        effects == seq![Effect::CancelInsert]
    } else {
        &&& effects.len() == 1
        &&& match (p_idx, draft.target) {
            (_, InsertTarget::Project) => effects[0] matches Effect::CreateProject { name }
                && name@ == text,
            (None, _) => effects[0] == Effect::CancelInsert,
            (Some(i), InsertTarget::TaskRoot) => effects[0] matches Effect::CreateTask {
                p_idx,
                description,
            } && p_idx == i && description@ == text,
            (Some(i), InsertTarget::TaskSibling { .. }) => effects[0] matches Effect::CreateTask {
                p_idx,
                description,
            } && p_idx == i && description@ == text,
            (Some(i), InsertTarget::Subtask { task }) => effects[0] matches Effect::CreateSubtask {
                p_idx,
                task_id,
                description,
            } && p_idx == i && task_id == task && description@ == text,
        }
    }
}

/// The effects of an intent while a draft is being typed.
pub open spec fn insert_effects(
    p_idx: Option<usize>,
    draft: Draft,
    intent: Intent,
    effects: Seq<Effect>,
) -> bool {
    match intent {
        Intent::Edit(EditIntent::Cancel) => effects == seq![Effect::CancelInsert],
        Intent::Edit(EditIntent::Backspace) => effects == seq![Effect::DraftPop],
        Intent::Edit(EditIntent::Char(c)) => effects == seq![Effect::DraftPush(c)],
        Intent::Edit(EditIntent::Submit) => submit_effects(p_idx, draft, effects),
        _ => effects.len() == 0,
    }
}

/// The effects of an intent with the sidebar focused.
pub open spec fn sidebar_effects(app: App, intent: Intent) -> Seq<Effect> {
    match intent {
        Intent::App(AppIntent::Quit) => seq![Effect::Quit],
        Intent::Nav(NavIntent::NextFocus) => seq![Effect::NextFocus],
        Intent::Nav(NavIntent::Down) => seq![Effect::SelectNextProject],
        Intent::Nav(NavIntent::Up) => seq![Effect::SelectPrevProject],
        Intent::Nav(NavIntent::Right) => if app.screen.sidebar_cursor
            < app.workspace.projects@.len() {
            seq![Effect::SelectProject { p_idx: app.screen.sidebar_cursor }, Effect::NextFocus]
        } else {
            Seq::empty()
        },
        Intent::Edit(EditIntent::Start(InsertKind::Project)) => seq![
            Effect::EnterInsert(InsertTarget::Project),
        ],
        _ => Seq::empty(),
    }
}

/// The effects of starting an insert of kind `kind` from the tree: without
/// an open project `i`/`I` start a project; otherwise the target follows the
/// cursor, and `I` on a subtask is refused with a message.
pub open spec fn insert_start_effects(app: App, kind: InsertKind, effects: Seq<Effect>) -> bool {
    match app.screen.p_idx {
        None => effects == if kind is Sibling || kind is Child {
            seq![Effect::EnterInsert(InsertTarget::Project)]
        } else {
            Seq::<Effect>::empty()
        },
        Some(_) => match (kind, app.screen.tree.cursor) {
            (InsertKind::Project, _) => effects == seq![
                Effect::NextFocus,
                Effect::EnterInsert(InsertTarget::Project),
            ],
            (InsertKind::Sibling, None) => effects == seq![
                Effect::EnterInsert(InsertTarget::TaskRoot),
            ],
            (InsertKind::Child, None) => effects == seq![Effect::EnterInsert(InsertTarget::TaskRoot)],
            (InsertKind::Sibling, Some(TreeRowId::Task(tid))) => effects == seq![
                Effect::EnterInsert(InsertTarget::TaskSibling { after: tid }),
            ],
            (InsertKind::Sibling, Some(TreeRowId::Subtask { task, .. })) => effects == seq![
                Effect::EnterInsert(InsertTarget::Subtask { task }),
            ],
            (InsertKind::Child, Some(TreeRowId::Task(tid))) => effects == seq![
                Effect::EnterInsert(InsertTarget::Subtask { task: tid }),
            ],
            (InsertKind::Child, Some(TreeRowId::Subtask { .. })) => {
                &&& effects.len() == 1
                &&& effects[0] matches Effect::ShowError(m) && m@ == no_grandchild_message()
            },
        },
    }
}

/// The name a delete prompt shows for task `tid` of project `i`: its
/// description, or `task` when there is no such project or task.
pub open spec fn delete_name(w: Workspace, i: usize, tid: u32) -> Seq<char> {
    if i < w.projects@.len() && has_task(w.projects@[i as int].tasks@, tid) {
        let tasks = w.projects@[i as int].tasks@;
        tasks[choose|k: int| first_task_at(tasks, tid, k)].description@
    } else {
        "task"@
    }
}

/// The effects of `dd` in the tree: a subtask is deleted at once; a task
/// first asks for confirmation, holding the delete to run on yes.
pub open spec fn delete_effects(app: App, effects: Seq<Effect>) -> bool {
    match (app.screen.p_idx, app.screen.tree.cursor) {
        (Some(i), Some(TreeRowId::Subtask { task, sub })) => effects == seq![
            Effect::DeleteSubtask { p_idx: i, task_id: task, sub_id: sub },
        ],
        (Some(i), Some(TreeRowId::Task(tid))) => {
            &&& effects.len() == 1
            &&& effects[0] matches Effect::OpenOverlay(Overlay::Confirm(c))
            &&& c.prompt@ == "Delete task \""@ + delete_name(app.workspace, i, tid) + "\"? [y/n]"@
            &&& *c.on_confirm == Effect::DeleteTask { p_idx: i, task_id: tid }
        },
        _ => effects.len() == 0,
    }
}

/// The effects of an intent with the tree focused.
pub open spec fn tree_effects(app: App, intent: Intent, effects: Seq<Effect>) -> bool {
    match intent {
        Intent::App(AppIntent::Quit) => effects == seq![Effect::Quit],
        Intent::Nav(NavIntent::NextFocus) => effects == seq![Effect::NextFocus],
        Intent::Nav(NavIntent::Down) => effects == seq![Effect::TreeMoveDown],
        Intent::Nav(NavIntent::Up) => effects == seq![Effect::TreeMoveUp],
        Intent::Nav(NavIntent::Right) => effects == seq![Effect::TreeExpandOrDescend],
        Intent::Nav(NavIntent::Left) => effects == seq![Effect::TreeCollapseOrAscend],
        Intent::App(AppIntent::ToggleStatus) => effects == match app.screen.tree.cursor {
            Some(id) => seq![Effect::ToggleStatus(id)],
            None => Seq::<Effect>::empty(),
        },
        Intent::App(AppIntent::RequestDelete) => delete_effects(app, effects),
        Intent::Edit(EditIntent::Start(kind)) => insert_start_effects(app, kind, effects),
        _ => effects.len() == 0,
    }
}

/// The effects of `intent`: the overlay answers first, then the draft being
/// typed, then the focused pane.
pub open spec fn resolved(app: App, intent: Intent, effects: Seq<Effect>) -> bool {
    if app.overlay is Some {
        overlay_effects(intent, effects)
    } else {
        match app.screen.mode {
            ScreenMode::Insert(draft) => insert_effects(app.screen.p_idx, draft, intent, effects),
            ScreenMode::Navigate => match app.screen.focus {
                ProjectFocus::Sidebar => effects == sidebar_effects(app, intent),
                ProjectFocus::Tree => tree_effects(app, intent, effects),
            },
        }
    }
}

/// A list of one effect.
fn one(e: Effect) -> (v: Vec<Effect>)
    ensures
        v@ == seq![e],
{
    let mut v: Vec<Effect> = Vec::new();
    v.push(e);
    v
}

/// A list of two effects.
fn two(a: Effect, b: Effect) -> (v: Vec<Effect>)
    ensures
        v@ == seq![a, b],
{
    let mut v: Vec<Effect> = Vec::new();
    v.push(a);
    v.push(b);
    v
}

/// The effects `intent` asks for (see `resolved`).
pub fn resolve(app: &App, intent: &Intent) -> (effects: Vec<Effect>)
    ensures
        resolved(*app, *intent, effects@),
{
    if app.overlay.is_some() {
        return match intent {
            Intent::Confirm(ConfirmIntent::Yes) => two(Effect::ConfirmYes, Effect::CloseOverlay),
            _ => one(Effect::CloseOverlay),
        };
    }
    if let ScreenMode::Insert(draft) = &app.screen.mode {
        return match intent {
            Intent::Edit(EditIntent::Cancel) => one(Effect::CancelInsert),
            Intent::Edit(EditIntent::Backspace) => one(Effect::DraftPop),
            Intent::Edit(EditIntent::Char(c)) => one(Effect::DraftPush(*c)),
            Intent::Edit(EditIntent::Submit) => resolve_submit(app, draft),
            _ => Vec::new(),
        };
    }
    match app.screen.focus {
        ProjectFocus::Sidebar => resolve_sidebar(app, intent),
        ProjectFocus::Tree => resolve_tree(app, intent),
    }
}

/// The effects of an intent with the sidebar focused.
fn resolve_sidebar(app: &App, intent: &Intent) -> (effects: Vec<Effect>)
    ensures
        effects@ == sidebar_effects(*app, *intent),
{
    match intent {
        Intent::App(AppIntent::Quit) => one(Effect::Quit),
        Intent::Nav(NavIntent::NextFocus) => one(Effect::NextFocus),
        Intent::Nav(NavIntent::Down) => one(Effect::SelectNextProject),
        Intent::Nav(NavIntent::Up) => one(Effect::SelectPrevProject),
        Intent::Nav(NavIntent::Right) => {
            let p_idx: usize = app.screen.sidebar_cursor;
            if p_idx < app.workspace.projects.len() {
                two(Effect::SelectProject { p_idx }, Effect::NextFocus)
            } else {
                Vec::new()
            }
        },
        Intent::Edit(EditIntent::Start(InsertKind::Project)) => one(
            Effect::EnterInsert(InsertTarget::Project),
        ),
        _ => Vec::new(),
    }
}

/// The effects of an intent with the tree focused.
fn resolve_tree(app: &App, intent: &Intent) -> (effects: Vec<Effect>)
    ensures
        tree_effects(*app, *intent, effects@),
{
    match intent {
        Intent::App(AppIntent::Quit) => one(Effect::Quit),
        Intent::Nav(NavIntent::NextFocus) => one(Effect::NextFocus),
        Intent::Nav(NavIntent::Down) => one(Effect::TreeMoveDown),
        Intent::Nav(NavIntent::Up) => one(Effect::TreeMoveUp),
        Intent::Nav(NavIntent::Right) => one(Effect::TreeExpandOrDescend),
        Intent::Nav(NavIntent::Left) => one(Effect::TreeCollapseOrAscend),
        Intent::App(AppIntent::ToggleStatus) => match app.screen.tree.cursor {
            Some(id) => one(Effect::ToggleStatus(id)),
            None => Vec::new(),
        },
        Intent::App(AppIntent::RequestDelete) => resolve_delete(app),
        Intent::Edit(EditIntent::Start(kind)) => resolve_insert_start(app, *kind),
        _ => Vec::new(),
    }
}

/// The effects of starting an insert from the tree.
fn resolve_insert_start(app: &App, kind: InsertKind) -> (effects: Vec<Effect>)
    ensures
        insert_start_effects(*app, kind, effects@),
{
    if app.screen.p_idx.is_none() {
        if matches!(kind, InsertKind::Sibling | InsertKind::Child) {
            return one(Effect::EnterInsert(InsertTarget::Project));
        }
        return Vec::new();
    }
    let target = match (kind, app.screen.tree.cursor) {
        (InsertKind::Project, _) => InsertTarget::Project,
        (InsertKind::Sibling, None) | (InsertKind::Child, None) => InsertTarget::TaskRoot,
        (InsertKind::Sibling, Some(TreeRowId::Task(tid))) => InsertTarget::TaskSibling {
            after: tid,
        },
        (InsertKind::Sibling, Some(TreeRowId::Subtask { task: tid, .. })) => {
            InsertTarget::Subtask { task: tid }
        },
        (InsertKind::Child, Some(TreeRowId::Task(tid))) => InsertTarget::Subtask { task: tid },
        (InsertKind::Child, Some(TreeRowId::Subtask { .. })) => {
            let msg = "subtasks can't have children — press `i` for a sibling".to_owned();
            return one(Effect::ShowError(msg));
        },
    };
    if matches!(target, InsertTarget::Project) {
        return two(Effect::NextFocus, Effect::EnterInsert(InsertTarget::Project));
    }
    one(Effect::EnterInsert(target))
}

/// The effects of submitting `draft`.
fn resolve_submit(app: &App, draft: &Draft) -> (effects: Vec<Effect>)
    ensures
        submit_effects(app.screen.p_idx, *draft, effects@),
{
    let trimmed = trim(draft.text.as_str());
    if trimmed.is_empty() {
        return one(Effect::CancelInsert);
    }
    let text = trimmed.to_owned();
    let p_idx: usize = match app.screen.p_idx {
        Some(i) => i,
        None => {
            if matches!(draft.target, InsertTarget::Project) {
                return one(Effect::CreateProject { name: text });
            }
            return one(Effect::CancelInsert);
        },
    };
    match draft.target {
        InsertTarget::Project => one(Effect::CreateProject { name: text }),
        InsertTarget::TaskRoot | InsertTarget::TaskSibling { .. } => one(
            Effect::CreateTask { p_idx, description: text },
        ),
        InsertTarget::Subtask { task: tid } => one(
            Effect::CreateSubtask { p_idx, task_id: tid, description: text },
        ),
    }
}

/// The description of task `tid` in project `p_idx`, or `task`.
fn task_name(workspace: &Workspace, p_idx: usize, tid: u32) -> (s: String)
    ensures
        s@ == delete_name(*workspace, p_idx, tid),
{
    if p_idx < workspace.projects.len() {
        let project = &workspace.projects[p_idx];
        match project.get_task(tid) {
            Ok(k) => {
                proof {
                    lemma_first_task_unique(project.tasks@, tid, k as int);
                }
                return project.tasks[k].description.clone();
            },
            Err(_) => {},
        }
    }
    "task".to_owned()
}

/// The effects of `dd` in the tree.
fn resolve_delete(app: &App) -> (effects: Vec<Effect>)
    ensures
        delete_effects(*app, effects@),
{
    let p_idx: usize = match app.screen.p_idx {
        Some(i) => i,
        None => return Vec::new(),
    };
    match app.screen.tree.cursor {
        None => Vec::new(),
        Some(TreeRowId::Subtask { task: tid, sub: sid }) => one(
            Effect::DeleteSubtask { p_idx, task_id: tid, sub_id: sid },
        ),
        Some(TreeRowId::Task(tid)) => {
            let name = task_name(&app.workspace, p_idx, tid);
            let mut prompt = "Delete task \"".to_owned();
            prompt.append(name.as_str());
            prompt.append("\"? [y/n]");
            let on_confirm = Box::new(Effect::DeleteTask { p_idx, task_id: tid });
            one(Effect::OpenOverlay(Overlay::Confirm(ConfirmOverlay { prompt, on_confirm })))
        },
    }
}

} // verus!
