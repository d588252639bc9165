use rtodo::cli::TaskRef;
use rtodo::models::{Priority, Project, Status, Task};
use rtodo::tui::app::{App, Key, ProjectFocus, ScreenMode, TreeRowId};
use rtodo::tui::draft::InsertTarget;
use rtodo::tui::effect::Effect;
use rtodo::tui::intent::{keymap, Intent};
use rtodo::tui::overlay::{ConfirmOverlay, Overlay};
use rtodo::tui::resolve::resolve;
use rtodo::tui::tree::flatten;
use rtodo::workspace::Workspace;
use std::collections::HashSet;

#[test]
fn status_follows_subtasks() {
    let mut t = Task::new(0, String::from("t"), Priority::Low, Status::Completed);
    t.add_subtask(String::from("a"), Priority::Low);
    t.add_subtask(String::from("b"), Priority::Low);
    assert_eq!(t.status(), Status::New);
    t.complete_subtask(1).unwrap();
    assert_eq!(t.status(), Status::InProgress);
    t.complete_subtask(0).unwrap();
    assert_eq!(t.status(), Status::Completed);
}

#[test]
fn uncomplete_undoes_complete() {
    let mut t = Task::new(0, String::from("t"), Priority::Low, Status::New);
    t.add_subtask(String::from("a"), Priority::Low);
    t.add_subtask(String::from("b"), Priority::High);
    let before: Vec<(u32, bool)> = t.subtasks.iter().map(|s| (s.id, s.completed)).collect();
    t.complete_subtask(1).unwrap();
    t.uncomplete_subtask(1).unwrap();
    let after: Vec<(u32, bool)> = t.subtasks.iter().map(|s| (s.id, s.completed)).collect();
    assert_eq!(before, after);
    assert_eq!(t.next_subtask_id(), 2);
}

#[test]
fn added_task_is_found_and_deleted_task_is_gone() {
    let mut p = Project::new(0, String::from("p"));
    p.add_task(String::from("a"), Priority::Low);
    p.add_task(String::from("b"), Priority::Low);
    p.delete_task(0).unwrap();
    let id = p.add_task(String::from("c"), Priority::Low).id;
    assert_eq!(id, 2);
    assert_eq!(p.get_task(id), Ok(1));
    let removed = p.delete_task(1).unwrap();
    assert_eq!(removed.id, 1);
    assert!(p.get_task(1).is_err());
    assert_eq!(p.task_count(), 1);
}

#[test]
fn activated_task_is_active() {
    let mut p = Project::new(0, String::from("p"));
    p.add_task(String::from("a"), Priority::Low);
    p.add_task(String::from("b"), Priority::Low);
    p.set_active_task(0).unwrap();
    let t = p.active_task().unwrap();
    assert_eq!(t.id, 0);
    assert_eq!(t.status(), Status::InProgress);
    p.complete_active_task().unwrap();
    assert_eq!(p.active_task_id, None);
    assert_eq!(p.tasks[0].status(), Status::Completed);
}

#[test]
fn listing_is_sorted_by_priority() {
    let mut p = Project::new(0, String::from("p"));
    p.add_task(String::from("l"), Priority::Low);
    p.add_task(String::from("h"), Priority::High);
    p.add_task(String::from("m"), Priority::Medium);
    p.add_task(String::from("h2"), Priority::High);
    p.add_task(String::from("done"), Priority::High);
    p.move_task(4, Status::Completed).unwrap();
    let listed: Vec<u32> = p.tasks_with_status(&Status::New).iter().map(|t| t.id).collect();
    assert_eq!(listed, vec![1, 3, 2, 0]);
}

#[test]
fn selected_project_is_active() {
    let mut ws = Workspace::new();
    ws.add_project(String::from("a"));
    ws.add_project(String::from("b"));
    ws.set_active_project(1).unwrap();
    assert_eq!(ws.active_project().unwrap().name, "b");
}

#[test]
fn tab_twice_returns() {
    let mut app = App::new(Workspace::new());
    app.apply(Effect::NextFocus).unwrap();
    assert_eq!(app.screen.focus, ProjectFocus::Sidebar);
    app.apply(Effect::NextFocus).unwrap();
    assert_eq!(app.screen.focus, ProjectFocus::Tree);
}

#[test]
fn pop_undoes_push_and_cancel_undoes_insert() {
    let mut app = App::new(Workspace::new());
    app.apply(Effect::EnterInsert(InsertTarget::Project)).unwrap();
    app.apply(Effect::DraftPush('a')).unwrap();
    app.apply(Effect::DraftPush('é')).unwrap();
    app.apply(Effect::DraftPop).unwrap();
    match &app.screen.mode {
        ScreenMode::Insert(d) => assert_eq!(d.text, "a"),
        ScreenMode::Navigate => panic!("expected insert mode"),
    }
    app.apply(Effect::CancelInsert).unwrap();
    assert!(matches!(app.screen.mode, ScreenMode::Navigate));
}

#[test]
fn collapse_undoes_expand() {
    let mut ws = Workspace::new();
    ws.add_project(String::from("p"));
    ws.projects[0].add_task(String::from("t"), Priority::Low);
    ws.projects[0].add_subtask(0, String::from("s"), Priority::Low).unwrap();
    let mut app = App::new(ws);
    app.apply(Effect::TreeExpandOrDescend).unwrap();
    assert!(app.screen.tree.expanded.contains(&0));
    app.apply(Effect::TreeCollapseOrAscend).unwrap();
    assert!(app.screen.tree.expanded.is_empty());
    assert_eq!(app.screen.tree.cursor, Some(TreeRowId::Task(0)));
}

#[test]
fn overlay_answers_every_key() {
    let mut app = App::new(Workspace::new());
    app.overlay = Some(Overlay::Confirm(ConfirmOverlay {
        prompt: String::from("?"),
        on_confirm: Box::new(Effect::Quit),
    }));
    for key in [Key::Char('y'), Key::Char('q'), Key::Esc, Key::Tab, Key::Other] {
        let intent = keymap(&app, key).unwrap();
        assert!(matches!(intent, Intent::Confirm(_)));
        let effects = resolve(&app, &intent);
        assert!(matches!(effects.last(), Some(Effect::CloseOverlay)));
    }
}

#[test]
fn every_task_has_a_row() {
    let mut p = Project::new(0, String::from("p"));
    p.add_task(String::from("a"), Priority::Low);
    p.add_task(String::from("b"), Priority::Low);
    p.add_subtask(0, String::from("s"), Priority::Low).unwrap();
    let mut expanded = HashSet::new();
    for _ in 0..2 {
        let rows = flatten(&p, &expanded);
        for t in &p.tasks {
            assert!(rows.iter().any(|r| r.id == TreeRowId::Task(t.id)));
        }
        expanded.insert(0u32);
    }
}

#[test]
fn task_ref_round_trips() {
    for r in [
        TaskRef { task: 0, subtask: None },
        TaskRef { task: 4294967295, subtask: Some(0) },
        TaskRef { task: 12, subtask: Some(345) },
    ] {
        assert_eq!(TaskRef::parse(&r.to_string()), Ok(r));
    }
}

fn snapshot(ws: &Workspace) -> Vec<(u32, String, Vec<(u32, String, Status, usize)>)> {
    ws.projects
        .iter()
        .map(|p| {
            (
                p.id,
                p.name.clone(),
                p.tasks
                    .iter()
                    .map(|t| (t.id, t.description.clone(), t.status(), t.subtasks.len()))
                    .collect(),
            )
        })
        .collect()
}

#[test]
fn unsaved_effects_keep_the_workspace() {
    let mut ws = Workspace::new();
    ws.add_project(String::from("p"));
    ws.projects[0].add_task(String::from("t"), Priority::Low);
    ws.projects[0].add_subtask(0, String::from("a"), Priority::Low).unwrap();
    ws.projects[0].add_subtask(0, String::from("b"), Priority::Low).unwrap();
    ws.projects[0].complete_subtask(0, 0).unwrap();
    let mut app = App::new(ws);
    let before = snapshot(&app.workspace);
    let effects = vec![
        Effect::NextFocus,
        Effect::TreeMoveDown,
        Effect::TreeExpandOrDescend,
        Effect::ToggleStatus(TreeRowId::Task(0)),
        Effect::DeleteTask { p_idx: 0, task_id: 9 },
        Effect::ShowError(String::from("x")),
        Effect::Quit,
    ];
    for e in effects {
        let r = app.apply(e);
        assert!(r.is_err() || r == Ok(false));
    }
    assert_eq!(snapshot(&app.workspace), before);
    assert_eq!(app.workspace.active_project_id, None);
}

#[test]
fn confirm_runs_the_held_effect() {
    let mut ws = Workspace::new();
    ws.add_project(String::from("p"));
    ws.projects[0].add_task(String::from("t"), Priority::Low);
    let mut app = App::new(ws);
    app.error = Some(String::from("old"));
    app.overlay = Some(Overlay::Confirm(ConfirmOverlay {
        prompt: String::from("?"),
        on_confirm: Box::new(Effect::DeleteTask { p_idx: 0, task_id: 0 }),
    }));
    assert_eq!(app.apply(Effect::ConfirmYes), Ok(true));
    assert!(app.overlay.is_none());
    assert!(app.error.is_none());
    assert!(app.workspace.projects[0].tasks.is_empty());
    app.error = Some(String::from("old"));
    assert_eq!(app.apply(Effect::ConfirmYes), Ok(false));
    assert!(app.error.is_none());
}
