use rtodo::models::{Priority, Status};
use rtodo::tui::app::{App, Key, ProjectFocus, ScreenMode, TreeRowId};
use rtodo::tui::draft::InsertTarget;
use rtodo::tui::effect::Effect;
use rtodo::tui::intent::{
    keymap, next_last_key, AppIntent, ConfirmIntent, EditIntent, InsertKind, Intent, NavIntent,
};
use rtodo::tui::overlay::Overlay;
use rtodo::tui::resolve::resolve;
use rtodo::workspace::Workspace;

fn press(app: &mut App, key: Key) -> Vec<bool> {
    let mut saves = Vec::new();
    let intent = keymap(app, key);
    if let Some(i) = intent {
        for effect in resolve(app, &i) {
            assert!(app.accepts(&effect));
            saves.push(app.apply(effect).unwrap());
        }
    }
    app.last_key = next_last_key(&intent, key);
    saves
}

fn type_text(app: &mut App, text: &str) {
    for c in text.chars() {
        press(app, Key::Char(c));
    }
}

fn empty_app() -> App {
    App::new(Workspace::new())
}

#[test]
fn boots_empty_on_tree_focus() {
    let app = empty_app();
    assert_eq!(app.screen.p_idx, None);
    assert_eq!(app.screen.focus, ProjectFocus::Tree);
    assert!(matches!(app.screen.mode, ScreenMode::Navigate));
    assert!(app.overlay.is_none());
}

#[test]
fn boots_on_active_project_with_cursor_on_first_task() {
    let mut ws = Workspace::new();
    ws.add_project(String::from("a"));
    ws.add_project(String::from("b"));
    ws.projects[1].add_task(String::from("t"), Priority::Low);
    ws.set_active_project(1).unwrap();
    let app = App::new(ws);
    assert_eq!(app.screen.p_idx, Some(1));
    assert_eq!(app.screen.sidebar_cursor, 1);
    assert_eq!(app.screen.tree.cursor, Some(TreeRowId::Task(0)));
}

#[test]
fn creating_a_project_from_an_empty_tree() {
    let mut app = empty_app();
    press(&mut app, Key::Char('i'));
    match &app.screen.mode {
        ScreenMode::Insert(d) => assert_eq!(d.target, InsertTarget::Project),
        ScreenMode::Navigate => panic!("expected insert mode"),
    }
    type_text(&mut app, "  Home  ");
    let saves = press(&mut app, Key::Enter);
    assert_eq!(saves, vec![true]);
    assert_eq!(app.workspace.projects.len(), 1);
    assert_eq!(app.workspace.projects[0].name, "Home");
    assert_eq!(app.workspace.active_project_id, Some(0));
    assert_eq!(app.screen.p_idx, Some(0));
    assert!(matches!(app.screen.mode, ScreenMode::Navigate));
}

#[test]
fn blank_submit_cancels_the_insert() {
    let mut app = empty_app();
    press(&mut app, Key::Char('i'));
    type_text(&mut app, "   ");
    let saves = press(&mut app, Key::Enter);
    assert_eq!(saves, vec![false]);
    assert!(app.workspace.projects.is_empty());
    assert!(matches!(app.screen.mode, ScreenMode::Navigate));
}

#[test]
fn creating_tasks_and_subtasks() {
    let mut app = empty_app();
    press(&mut app, Key::Char('i'));
    type_text(&mut app, "P");
    press(&mut app, Key::Enter);
    press(&mut app, Key::Char('i'));
    type_text(&mut app, "write");
    assert_eq!(press(&mut app, Key::Enter), vec![true]);
    assert_eq!(app.screen.tree.cursor, Some(TreeRowId::Task(0)));
    press(&mut app, Key::Char('I'));
    type_text(&mut app, "draft");
    assert_eq!(press(&mut app, Key::Enter), vec![true]);
    assert_eq!(app.screen.tree.cursor, Some(TreeRowId::Subtask { task: 0, sub: 0 }));
    assert!(app.screen.tree.expanded.contains(&0));
    let task = &app.workspace.projects[0].tasks[0];
    assert_eq!(task.subtasks.len(), 1);
    assert_eq!(task.subtasks[0].description, "draft");
    assert_eq!(task.subtasks[0].priority, Priority::Medium);
}

#[test]
fn child_of_subtask_is_refused_with_a_message() {
    let mut app = empty_app();
    press(&mut app, Key::Char('i'));
    type_text(&mut app, "P");
    press(&mut app, Key::Enter);
    press(&mut app, Key::Char('i'));
    type_text(&mut app, "t");
    press(&mut app, Key::Enter);
    press(&mut app, Key::Char('I'));
    type_text(&mut app, "s");
    press(&mut app, Key::Enter);
    press(&mut app, Key::Char('I'));
    assert_eq!(
        app.error.as_deref(),
        Some("subtasks can't have children — press `i` for a sibling")
    );
    press(&mut app, Key::Char('j'));
    assert_eq!(app.error, None);
}

#[test]
fn space_cycles_task_status_and_toggles_subtasks() {
    let mut app = empty_app();
    press(&mut app, Key::Char('i'));
    type_text(&mut app, "P");
    press(&mut app, Key::Enter);
    press(&mut app, Key::Char('i'));
    type_text(&mut app, "t");
    press(&mut app, Key::Enter);
    assert_eq!(press(&mut app, Key::Char(' ')), vec![true]);
    assert_eq!(app.workspace.projects[0].tasks[0].status(), Status::InProgress);
    press(&mut app, Key::Char(' '));
    assert_eq!(app.workspace.projects[0].tasks[0].status(), Status::Completed);
    press(&mut app, Key::Char(' '));
    assert_eq!(app.workspace.projects[0].tasks[0].status(), Status::New);
    press(&mut app, Key::Char('I'));
    type_text(&mut app, "s");
    press(&mut app, Key::Enter);
    press(&mut app, Key::Char(' '));
    assert!(app.workspace.projects[0].tasks[0].subtasks[0].completed);
    assert_eq!(app.workspace.projects[0].tasks[0].status(), Status::Completed);
    press(&mut app, Key::Char(' '));
    assert!(!app.workspace.projects[0].tasks[0].subtasks[0].completed);
    assert_eq!(app.workspace.projects[0].tasks[0].status(), Status::New);
}

#[test]
fn refused_status_shows_the_error() {
    let mut app = empty_app();
    press(&mut app, Key::Char('i'));
    type_text(&mut app, "P");
    press(&mut app, Key::Enter);
    press(&mut app, Key::Char('i'));
    type_text(&mut app, "t");
    press(&mut app, Key::Enter);
    press(&mut app, Key::Char('I'));
    type_text(&mut app, "a");
    press(&mut app, Key::Enter);
    press(&mut app, Key::Char('i'));
    type_text(&mut app, "b");
    press(&mut app, Key::Enter);
    app.workspace.projects[0].complete_subtask(0, 0).unwrap();
    press(&mut app, Key::Char('h'));
    assert_eq!(app.screen.tree.cursor, Some(TreeRowId::Task(0)));
    let saves = press(&mut app, Key::Char(' '));
    assert_eq!(saves, vec![false]);
    assert_eq!(app.workspace.projects[0].tasks[0].status(), Status::InProgress);
    assert_eq!(
        app.error.as_deref(),
        Some("task 0 has incomplete subtasks — complete them first")
    );
}

#[test]
fn dd_asks_before_deleting_a_task() {
    let mut app = empty_app();
    press(&mut app, Key::Char('i'));
    type_text(&mut app, "P");
    press(&mut app, Key::Enter);
    press(&mut app, Key::Char('i'));
    type_text(&mut app, "doomed");
    press(&mut app, Key::Enter);
    press(&mut app, Key::Char('d'));
    assert!(app.overlay.is_none());
    press(&mut app, Key::Char('d'));
    match &app.overlay {
        Some(Overlay::Confirm(c)) => assert_eq!(c.prompt, "Delete task \"doomed\"? [y/n]"),
        None => panic!("expected the confirm overlay"),
    }
    assert_eq!(app.last_key, None);
    press(&mut app, Key::Char('n'));
    assert!(app.overlay.is_none());
    assert_eq!(app.workspace.projects[0].tasks.len(), 1);
    press(&mut app, Key::Char('d'));
    press(&mut app, Key::Char('d'));
    let saves = press(&mut app, Key::Char('y'));
    assert_eq!(saves, vec![true, false]);
    assert!(app.overlay.is_none());
    assert!(app.workspace.projects[0].tasks.is_empty());
    assert_eq!(app.screen.tree.cursor, None);
}

#[test]
fn dd_on_a_subtask_deletes_at_once() {
    let mut app = empty_app();
    press(&mut app, Key::Char('i'));
    type_text(&mut app, "P");
    press(&mut app, Key::Enter);
    press(&mut app, Key::Char('i'));
    type_text(&mut app, "t");
    press(&mut app, Key::Enter);
    press(&mut app, Key::Char('I'));
    type_text(&mut app, "s");
    press(&mut app, Key::Enter);
    press(&mut app, Key::Char('d'));
    let saves = press(&mut app, Key::Char('d'));
    assert_eq!(saves, vec![true]);
    assert!(app.workspace.projects[0].tasks[0].subtasks.is_empty());
    assert_eq!(app.screen.tree.cursor, Some(TreeRowId::Task(0)));
}

#[test]
fn tree_navigation_moves_expands_and_collapses() {
    let mut ws = Workspace::new();
    ws.add_project(String::from("P"));
    ws.projects[0].add_task(String::from("a"), Priority::Low);
    ws.projects[0].add_task(String::from("b"), Priority::Low);
    ws.projects[0].add_subtask(0, String::from("a1"), Priority::Low).unwrap();
    let mut app = App::new(ws);
    assert_eq!(app.screen.tree.cursor, Some(TreeRowId::Task(0)));
    press(&mut app, Key::Char('j'));
    assert_eq!(app.screen.tree.cursor, Some(TreeRowId::Task(1)));
    press(&mut app, Key::Char('j'));
    assert_eq!(app.screen.tree.cursor, Some(TreeRowId::Task(1)));
    press(&mut app, Key::Up);
    assert_eq!(app.screen.tree.cursor, Some(TreeRowId::Task(0)));
    press(&mut app, Key::Char('l'));
    assert!(app.screen.tree.expanded.contains(&0));
    assert_eq!(app.screen.tree.cursor, Some(TreeRowId::Task(0)));
    press(&mut app, Key::Char('l'));
    assert_eq!(app.screen.tree.cursor, Some(TreeRowId::Subtask { task: 0, sub: 0 }));
    press(&mut app, Key::Char('j'));
    assert_eq!(app.screen.tree.cursor, Some(TreeRowId::Task(1)));
    press(&mut app, Key::Char('k'));
    press(&mut app, Key::Char('h'));
    assert_eq!(app.screen.tree.cursor, Some(TreeRowId::Task(0)));
    press(&mut app, Key::Char('h'));
    assert!(!app.screen.tree.expanded.contains(&0));
}

#[test]
fn sidebar_selects_and_opens_projects() {
    let mut ws = Workspace::new();
    ws.add_project(String::from("a"));
    ws.add_project(String::from("b"));
    let mut app = App::new(ws);
    assert_eq!(app.screen.p_idx, Some(0));
    press(&mut app, Key::Tab);
    assert_eq!(app.screen.focus, ProjectFocus::Sidebar);
    press(&mut app, Key::Char('j'));
    press(&mut app, Key::Char('j'));
    assert_eq!(app.screen.sidebar_cursor, 1);
    let saves = press(&mut app, Key::Enter);
    assert_eq!(saves, vec![true, false]);
    assert_eq!(app.screen.p_idx, Some(1));
    assert_eq!(app.workspace.active_project_id, Some(1));
    assert_eq!(app.screen.focus, ProjectFocus::Tree);
    press(&mut app, Key::Tab);
    press(&mut app, Key::Char('k'));
    press(&mut app, Key::Char('k'));
    assert_eq!(app.screen.sidebar_cursor, 0);
}

#[test]
fn keymap_reads_keys_by_mode_and_focus() {
    let mut app = empty_app();
    assert_eq!(keymap(&app, Key::Char('q')), Some(Intent::App(AppIntent::Quit)));
    assert_eq!(keymap(&app, Key::Char('x')), None);
    assert_eq!(
        keymap(&app, Key::Char('i')),
        Some(Intent::Edit(EditIntent::Start(InsertKind::Sibling)))
    );
    app.screen.focus = ProjectFocus::Sidebar;
    assert_eq!(
        keymap(&app, Key::Char('i')),
        Some(Intent::Edit(EditIntent::Start(InsertKind::Project)))
    );
    assert_eq!(keymap(&app, Key::Enter), Some(Intent::Nav(NavIntent::Right)));
    assert_eq!(keymap(&app, Key::Char(' ')), None);
    press(&mut app, Key::Char('i'));
    assert_eq!(
        keymap(&app, Key::Char('q')),
        Some(Intent::Edit(EditIntent::Char('q')))
    );
    assert_eq!(keymap(&app, Key::Tab), None);
    assert_eq!(keymap(&app, Key::Esc), Some(Intent::Edit(EditIntent::Cancel)));
}

#[test]
fn quit_sets_the_flag() {
    let mut app = empty_app();
    press(&mut app, Key::Char('q'));
    assert!(app.should_quit);
}

#[test]
fn confirm_yes_runs_the_stored_effect() {
    let mut ws = Workspace::new();
    ws.add_project(String::from("P"));
    ws.projects[0].add_task(String::from("t"), Priority::Low);
    let mut app = App::new(ws);
    app.overlay = Some(Overlay::Confirm(rtodo::tui::overlay::ConfirmOverlay {
        prompt: String::from("?"),
        on_confirm: Box::new(Effect::DeleteTask { p_idx: 0, task_id: 0 }),
    }));
    let effects = resolve(&app, &Intent::Confirm(ConfirmIntent::Yes));
    assert_eq!(effects.len(), 2);
    assert!(matches!(effects[0], Effect::ConfirmYes));
    assert!(matches!(effects[1], Effect::CloseOverlay));
    assert_eq!(app.apply(Effect::ConfirmYes).unwrap(), true);
    assert!(app.workspace.projects[0].tasks.is_empty());
}

#[test]
fn deleting_a_missing_task_is_an_error() {
    let mut ws = Workspace::new();
    ws.add_project(String::from("P"));
    let mut app = App::new(ws);
    let r = app.apply(Effect::DeleteTask { p_idx: 0, task_id: 7 });
    assert!(matches!(r, Err(rtodo::AppError::TaskNotFound { id: 7 })));
}

#[test]
fn accepts_refuses_effects_naming_missing_projects() {
    let app = empty_app();
    assert!(!app.accepts(&Effect::SelectProject { p_idx: 0 }));
    assert!(!app.accepts(&Effect::DeleteTask { p_idx: 0, task_id: 0 }));
    assert!(app.accepts(&Effect::Quit));
}
