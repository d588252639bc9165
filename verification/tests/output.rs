use rtodo::clock::Timestamp;
use rtodo::dispatch::{dispatch_project, dispatch_task, Action, ProjectReport, TaskReport};
use rtodo::cli::{ProjectCommands, TaskCommands, TaskRef};
use rtodo::models::{Priority, Project, Status, Task};
use rtodo::style::{
    action_green, error_prefix, fmt_id, fmt_priority_label, fmt_priority_symbol,
    fmt_status_header, fmt_task_line, pad_right, Ink, Styled,
};
use rtodo::ui::{
    action_label, project_report_line, task_report_line, ProjectListView, TaskSummaryView,
};
use rtodo::workspace::Workspace;
use rtodo::AppError;

fn joined(pieces: &[Styled]) -> String {
    pieces.iter().map(|p| p.text.as_str()).collect()
}

fn fixed_task(id: u32, desc: &str, priority: Priority) -> Task {
    let mut t = Task::new(id, String::from(desc), priority, Status::New);
    t.created_at = Timestamp { secs: 1_700_000_000, nanos: 0 };
    t
}

#[test]
fn pad_right_pads_by_characters() {
    assert_eq!(pad_right("ab", 5), "ab   ");
    assert_eq!(pad_right("abcdef", 3), "abcdef");
    assert_eq!(pad_right("é", 3), "é  ");
}

#[test]
fn action_labels_are_padded_and_inked() {
    let l = action_green("added");
    assert_eq!((l.text.as_str(), l.ink), ("added   ", Ink::GreenBold));
    let e = error_prefix();
    assert_eq!((e.text.as_str(), e.ink), ("error:", Ink::RedBold));
    let a = action_label(Action::Removed);
    assert_eq!((a.text.as_str(), a.ink), ("removed ", Ink::RedBold));
    let s = action_label(Action::Started);
    assert_eq!((s.text.as_str(), s.ink), ("started ", Ink::CyanBold));
}

#[test]
fn field_formatters() {
    let id = fmt_id(12);
    assert_eq!((id.text.as_str(), id.ink), ("[12]", Ink::Dim));
    assert_eq!(joined(&fmt_priority_symbol(&Priority::High)), "!!");
    assert_eq!(joined(&fmt_priority_symbol(&Priority::Medium)), " ·");
    let low = fmt_priority_label(&Priority::Low);
    assert_eq!((low.text.as_str(), low.ink), ("low", Ink::Dim));
    let header = fmt_status_header(&Status::Completed);
    assert_eq!(joined(&header), format!("✓ Completed {}", "─".repeat(44)));
    assert_eq!(header[1].ink, Ink::GreenBold);
}

#[test]
fn task_line_marks_active_and_high_priority() {
    let t = fixed_task(3, "fix", Priority::High);
    assert_eq!(joined(&fmt_task_line(&t, false, 6)), "  [3] ! fix     !!  2023-11-14");
    assert_eq!(joined(&fmt_task_line(&t, true, 6)), "  [3] → fix     !!  2023-11-14");
    let active = fmt_task_line(&t, true, 6);
    assert_eq!((active[3].text.as_str(), active[3].ink), ("→", Ink::CyanBold));
}

#[test]
fn dates_are_the_utc_calendar_day() {
    let p = {
        let mut p = Project::new(4, String::from("Home"));
        p.created_at = Timestamp { secs: 0, nanos: 0 };
        p
    };
    assert_eq!(p.display(), "[4] Home (0 tasks) -- (1970-01-01)");
}

#[test]
fn task_list_lines_group_by_status() {
    let mut p = Project::new(0, String::from("Home"));
    p.tasks.push(fixed_task(0, "low", Priority::Low));
    p.tasks.push(fixed_task(1, "high", Priority::High));
    p.move_task(0, Status::InProgress).unwrap();
    let view = TaskSummaryView::new(&p, None);
    assert_eq!(view.width, 10);
    let lines: Vec<String> = view.lines(&p).iter().map(|l| joined(l)).collect();
    let rule = "─".repeat(44);
    assert_eq!(
        lines,
        vec![
            format!("● In Progress {rule}"),
            String::from("  [0]   low          ·  2023-11-14"),
            String::new(),
            format!("● New {rule}"),
            String::from("  [1] ! high        !!  2023-11-14"),
            String::new(),
            format!("✓ Completed {rule}"),
            String::from("  (empty)"),
            String::new(),
        ]
    );
}

#[test]
fn task_list_shows_progress_badge_and_subtasks() {
    let mut p = Project::new(0, String::from("Home"));
    p.tasks.push(fixed_task(0, "paint", Priority::Medium));
    p.add_subtask(0, String::from("walls"), Priority::Low).unwrap();
    p.tasks[0].subtasks[0].created_at = Timestamp { secs: 1_700_000_000, nanos: 0 };
    let filter = [Status::New];
    let view = TaskSummaryView::new(&p, Some(&filter));
    let lines: Vec<String> = view.lines(&p).iter().map(|l| joined(l)).collect();
    assert_eq!(lines[1], "  [0]   paint        ·  2023-11-14  [0/1]");
    assert_eq!(lines[2], "      ↳ [0] walls        ·  2023-11-14");
    assert_eq!(lines.len(), 4);
}

#[test]
fn project_list_lines() {
    let mut ws = Workspace::new();
    let view = ProjectListView::new(&ws);
    let lines: Vec<String> = view.lines(&ws).iter().map(|l| joined(l)).collect();
    assert_eq!(
        lines,
        vec![String::from(
            "  No projects yet. Run `rtodo project add <name>` to create one."
        )]
    );
    ws.add_project(String::from("Home"));
    ws.projects[0].created_at = Timestamp { secs: 1_700_000_000, nanos: 0 };
    ws.set_active_project(0).unwrap();
    let view = ProjectListView::new(&ws);
    let lines: Vec<String> = view.lines(&ws).iter().map(|l| joined(l)).collect();
    assert_eq!(lines, vec![String::from("→ [0] Home        0 tasks  2023-11-14")]);
    ws.add_project(String::from("Work"));
    ws.projects[1].created_at = Timestamp { secs: 1_700_000_000, nanos: 0 };
    let view = ProjectListView::new(&ws);
    let lines: Vec<String> = view.lines(&ws).iter().map(|l| joined(l)).collect();
    assert_eq!(
        lines,
        vec![
            String::from("→ [0] Home        0 tasks  2023-11-14"),
            String::from("  [1] Work        0 tasks  2023-11-14"),
        ]
    );
}

#[test]
fn project_reports() {
    let mut ws = Workspace::new();
    let r = dispatch_project(ProjectCommands::Add { name: String::from("Home") }, &mut ws).unwrap();
    match &r {
        ProjectReport::Changed { action, .. } => assert_eq!(*action, Action::Added),
        _ => panic!("expected a change"),
    }
    let line = joined(&project_report_line(&r).unwrap());
    assert!(line.starts_with("  added    [0] Home (0 tasks) -- ("));
    let r = dispatch_project(ProjectCommands::UnSet, &mut ws).unwrap();
    assert_eq!(joined(&project_report_line(&r).unwrap()), "  unset    no active project");
    let r = dispatch_project(ProjectCommands::Ls, &mut ws).unwrap();
    assert!(project_report_line(&r).is_none());
    let err = dispatch_project(ProjectCommands::Select { pid: 9 }, &mut ws).unwrap_err();
    assert_eq!(err, AppError::ProjectNotFound { id: 9 });
}

#[test]
fn task_reports() {
    let mut p = Project::new(0, String::from("Home"));
    let r = dispatch_task(
        TaskCommands::Add { desc: String::from("paint"), priority: Priority::High, parent: None },
        &mut p,
    )
    .unwrap();
    let line = joined(&task_report_line(&r).unwrap());
    assert!(line.starts_with("  added    [0] paint   high   "));
    let r = dispatch_task(
        TaskCommands::Add { desc: String::from("walls"), priority: Priority::Low, parent: Some(0) },
        &mut p,
    )
    .unwrap();
    let line = joined(&task_report_line(&r).unwrap());
    assert!(line.starts_with("  added    subtask [0] [ ] walls (low) -- ("));
    let r = dispatch_task(
        TaskCommands::Complete { tref: Some(TaskRef { task: 0, subtask: Some(0) }) },
        &mut p,
    )
    .unwrap();
    assert!(matches!(r, TaskReport::Subtask { action: Action::Done, .. }));
    assert_eq!(p.tasks[0].status(), Status::Completed);
    let r = dispatch_task(TaskCommands::Ls { status: None, pending: true }, &mut p).unwrap();
    match &r {
        TaskReport::Listed { filter } => {
            assert_eq!(filter.as_deref(), Some(&[Status::New, Status::InProgress][..]))
        }
        _ => panic!("expected a listing"),
    }
    assert!(task_report_line(&r).is_none());
    let err = dispatch_task(TaskCommands::Complete { tref: None }, &mut p).unwrap_err();
    assert_eq!(err, AppError::NoActiveTask);
    let err = dispatch_task(
        TaskCommands::Move { status: Status::InProgress, tref: Some(TaskRef { task: 0, subtask: Some(0) }) },
        &mut p,
    )
    .unwrap_err();
    assert_eq!(err, AppError::InvalidStatusTransition { id: 0 });
}

#[test]
fn every_error_has_its_message() {
    let cases = vec![
        (AppError::WorkspaceAlreadyInit, "workspace already initialized in this directory"),
        (AppError::WorkspaceNotFound, "no workspace found — run `rtodo init` first"),
        (AppError::ProjectNotFound { id: 3 }, "project 3 not found"),
        (AppError::NoActiveProject, "no active project — run `rtodo project switch <id>` first"),
        (AppError::TaskNotFound { id: 10 }, "task 10 not found"),
        (AppError::SubtaskNotFound { task_id: 1, subtask_id: 2 }, "subtask 1.2 not found"),
        (AppError::SubtaskDepthExceeded, "cannot add subtask to a subtask (max depth: 2)"),
        (
            AppError::TaskHasIncompleteSubtasks { id: 4 },
            "task 4 has incomplete subtasks — complete them first",
        ),
        (
            AppError::InvalidStatusTransition { id: 5 },
            "task 5 cannot move to that status given its subtasks",
        ),
        (AppError::NoActiveTask, "no active task"),
    ];
    for (e, m) in cases {
        assert_eq!(e.message(), m);
    }
}

#[test]
fn init_refuses_an_existing_workspace() {
    assert!(matches!(Workspace::init(true), Err(AppError::WorkspaceAlreadyInit)));
    let w = Workspace::init(false).unwrap();
    assert!(w.projects.is_empty());
    assert_eq!(w.active_project_id, None);
}
