use rtodo::models::{Priority, Project};
use rtodo::tui::app::{App, Key, TreeRowId};
use rtodo::tui::draft::{Draft, InsertTarget};
use rtodo::tui::render::{
    border_tone, format_row, help_line, popup_area, progress_bar, shows_sidebar, splice_draft,
    tree_pane, Area, Piece, Tone, TreePane,
};
use rtodo::tui::sidebar::sidebar_view;
use rtodo::tui::tree::{cursor_index, flatten, RowKind, TreeRow};
use rtodo::workspace::Workspace;
use std::collections::HashSet;

fn texts(pieces: &[Piece]) -> Vec<(String, Tone)> {
    pieces.iter().map(|p| (p.text.clone(), p.tone)).collect()
}

fn joined(pieces: &[Piece]) -> String {
    pieces.iter().map(|p| p.text.as_str()).collect()
}

fn sample_project() -> Project {
    let mut p = Project::new(0, String::from("Home"));
    p.add_task(String::from("paint"), Priority::High);
    p.add_task(String::from("sweep"), Priority::Low);
    p.add_subtask(0, String::from("buy paint"), Priority::Medium).unwrap();
    p.add_subtask(0, String::from("walls"), Priority::Low).unwrap();
    p.complete_subtask(0, 0).unwrap();
    p
}

#[test]
fn progress_bar_fills_in_proportion() {
    assert_eq!(progress_bar(0, 4, 8), "░░░░░░░░");
    assert_eq!(progress_bar(1, 4, 8), "██░░░░░░");
    assert_eq!(progress_bar(1, 3, 8), "██░░░░░░");
    assert_eq!(progress_bar(3, 3, 8), "████████");
    assert_eq!(progress_bar(0, 0, 3), "░░░");
}

#[test]
fn sidebar_shows_only_on_wide_screens() {
    assert!(!shows_sidebar(99));
    assert!(shows_sidebar(100));
    assert_eq!(border_tone(true), Tone::Cyan);
    assert_eq!(border_tone(false), Tone::Gray);
}

#[test]
fn flatten_lists_subtasks_of_expanded_tasks_only() {
    let p = sample_project();
    let collapsed = flatten(&p, &HashSet::new());
    assert_eq!(collapsed.len(), 2);
    assert!(matches!(collapsed[0].kind, RowKind::Parent { expanded: false }));
    assert!(matches!(collapsed[1].kind, RowKind::Leaf));
    assert!(collapsed[1].last_in_group);
    let mut expanded = HashSet::new();
    expanded.insert(0u32);
    let rows = flatten(&p, &expanded);
    let ids: Vec<TreeRowId> = rows.iter().map(|r| r.id).collect();
    assert_eq!(
        ids,
        vec![
            TreeRowId::Task(0),
            TreeRowId::Subtask { task: 0, sub: 0 },
            TreeRowId::Subtask { task: 0, sub: 1 },
            TreeRowId::Task(1),
        ]
    );
    assert!(!rows[1].last_in_group);
    assert!(rows[2].last_in_group);
    assert_eq!(rows[2].depth, 1);
    assert_eq!(cursor_index(&rows, TreeRowId::Task(1)), Some(3));
    assert_eq!(cursor_index(&rows, TreeRowId::Task(9)), None);
}

#[test]
fn format_row_shows_task_status_priority_and_progress() {
    let p = sample_project();
    let mut expanded = HashSet::new();
    expanded.insert(0u32);
    let rows = flatten(&p, &expanded);
    assert_eq!(
        texts(&format_row(&rows[0], &p)),
        vec![
            (String::from("▼ "), Tone::Plain),
            (String::from("WIP"), Tone::Yellow),
            (String::from(" "), Tone::Plain),
            (String::from("!"), Tone::Red),
            (String::from(" paint"), Tone::Plain),
            (String::from("  "), Tone::Plain),
            (String::from("████░░░░"), Tone::Green),
            (String::from(" 1/2"), Tone::Plain),
        ]
    );
    assert_eq!(joined(&format_row(&rows[1], &p)), "  ├─ [x] · buy paint");
    assert_eq!(joined(&format_row(&rows[2], &p)), "  └─ [ ]   walls");
    assert_eq!(joined(&format_row(&rows[3], &p)), "  New   sweep");
}

#[test]
fn format_row_of_a_missing_task_is_a_question_mark() {
    let p = sample_project();
    let row = TreeRow {
        id: TreeRowId::Task(42),
        depth: 0,
        last_in_group: true,
        kind: RowKind::Leaf,
    };
    assert_eq!(joined(&format_row(&row, &p)), "?");
    let sub = TreeRow {
        id: TreeRowId::Subtask { task: 0, sub: 9 },
        depth: 1,
        last_in_group: true,
        kind: RowKind::Subtask,
    };
    assert_eq!(joined(&format_row(&sub, &p)), "  └─ [ ]  ?");
}

#[test]
fn splice_puts_the_draft_after_its_anchor() {
    let p = sample_project();
    let mut expanded = HashSet::new();
    expanded.insert(0u32);
    let draft = Draft { text: String::from("new"), target: InsertTarget::Subtask { task: 0 } };
    let (rows, idx) = splice_draft(flatten(&p, &expanded), &draft);
    assert_eq!(idx, 3);
    assert_eq!(rows.len(), 5);
    assert_eq!(rows[3].depth, 1);
    assert!(matches!(&rows[3].kind, RowKind::Drafting { text } if text == "new"));
    let sibling = Draft { text: String::new(), target: InsertTarget::TaskSibling { after: 0 } };
    let (_, idx) = splice_draft(flatten(&p, &HashSet::new()), &sibling);
    assert_eq!(idx, 1);
    let root = Draft { text: String::new(), target: InsertTarget::TaskRoot };
    let (_, idx) = splice_draft(flatten(&p, &HashSet::new()), &root);
    assert_eq!(idx, 2);
    let collapsed_child = Draft { text: String::new(), target: InsertTarget::Subtask { task: 1 } };
    let (_, idx) = splice_draft(flatten(&p, &HashSet::new()), &collapsed_child);
    assert_eq!(idx, 2);
}

#[test]
fn tree_pane_without_projects_shows_the_hint() {
    let app = App::new(Workspace::new());
    match tree_pane(&app) {
        TreePane::Empty { message, focused } => {
            assert_eq!(message, "No projects — press `i` to create one");
            assert!(focused);
        }
        TreePane::Tasks { .. } => panic!("expected the empty pane"),
    }
}

#[test]
fn tree_pane_lists_rows_and_highlights_the_cursor() {
    let mut ws = Workspace::new();
    ws.projects.push(sample_project());
    let mut app = App::new(ws);
    app.screen.tree.cursor = Some(TreeRowId::Task(1));
    match tree_pane(&app) {
        TreePane::Tasks { title, lines, selected, focused } => {
            assert_eq!(title, " Home ");
            assert_eq!(lines.len(), 2);
            assert_eq!(selected, Some(1));
            assert!(focused);
        }
        TreePane::Empty { .. } => panic!("expected the task pane"),
    }
    let intent = rtodo::tui::intent::keymap(&app, Key::Char('I')).unwrap();
    for e in rtodo::tui::resolve::resolve(&app, &intent) {
        app.apply(e).unwrap();
    }
    app.screen.tree.cursor = None;
    match tree_pane(&app) {
        TreePane::Tasks { lines, selected, .. } => {
            assert_eq!(lines.len(), 3);
            assert_eq!(selected, Some(2));
            assert_eq!(joined(&lines[2]), "  └─  ▌");
        }
        TreePane::Empty { .. } => panic!("expected the task pane"),
    }
}

#[test]
fn help_line_follows_error_mode_and_focus() {
    let mut app = App::new(Workspace::new());
    let h = help_line(&app);
    assert_eq!(h.tone, Tone::Gray);
    assert!(h.text.starts_with(" j/k move"));
    app.error = Some(String::from("boom"));
    let h = help_line(&app);
    assert_eq!((h.text.as_str(), h.tone), (" ! boom", Tone::Red));
}

#[test]
fn popup_is_centred_and_clipped() {
    let area = Area { x: 0, y: 0, width: 80, height: 24 };
    let prompt = String::from("Delete task \"x\"? [y/n]");
    assert_eq!(
        popup_area(&prompt, area),
        Area { x: 27, y: 10, width: 26, height: 3 }
    );
    let small = Area { x: 2, y: 1, width: 10, height: 2 };
    assert_eq!(
        popup_area(&prompt, small),
        Area { x: 4, y: 1, width: 6, height: 3 }
    );
}

#[test]
fn sidebar_lists_projects_with_progress() {
    let mut ws = Workspace::new();
    let mut p = sample_project();
    p.move_task(1, rtodo::models::Status::Completed).unwrap();
    ws.projects.push(p);
    ws.add_project(String::from("Work"));
    let mut app = App::new(ws);
    app.screen.sidebar_cursor = 7;
    let v = sidebar_view(&app);
    assert_eq!(v.title, " WORKSPACE ");
    assert_eq!(v.lines.len(), 2);
    assert_eq!(texts(&v.lines[0]), vec![
        (String::from(" Home"), Tone::Plain),
        (String::from("  1/2"), Tone::Gray),
    ]);
    assert_eq!(v.selected, Some(1));
    assert!(!v.focused);
}
