//! The sidebar: every project of the workspace with its progress.

use vstd::prelude::*;

use crate::models::project::{keep, Project};
use crate::models::status::Status;
use crate::models::task::Task;
use crate::text::{decimal, push_decimal};
use crate::tui::app::{App, ProjectFocus, ScreenMode};
use crate::tui::draft::InsertTarget;
use crate::tui::render::{pieces_view, Piece, Tone};

verus! {

broadcast use vstd::string::group_string_axioms;

/// What the sidebar shows.
#[derive(Debug)]
pub struct SidebarView {
    pub title: String,
    /// One line per project, then the draft of a new project, if any.
    pub lines: Vec<Vec<Piece>>,
    /// The highlighted line.
    pub selected: Option<usize>,
    pub focused: bool,
}

/// The line of project `p`: its name, then `done/total` tasks in gray.
pub open spec fn project_line(p: Project) -> Seq<(Seq<char>, Tone)> {
    seq![
        (" "@ + p.name@, Tone::Plain),
        (
            "  "@ + decimal(keep(p.tasks@, |t: Task| t.status == Status::Completed).len()) + "/"@
                + decimal(p.tasks@.len()),
            Tone::Gray,
        ),
    ]
}

/// The sidebar of `app`: one line per project; while a project is being
/// typed, a last line with its draft, highlighted; otherwise the cursor's
/// project (the last one when the cursor is past the end), if any.
pub open spec fn sidebar_spec(app: App, v: SidebarView) -> bool {
    let projects = app.workspace.projects@;
    let drafting = app.screen.mode matches ScreenMode::Insert(d) && d.target is Project;
    &&& v.title@ == " WORKSPACE "@
    &&& v.focused == (app.screen.focus == ProjectFocus::Sidebar)
    &&& v.lines@.len() == projects.len() + if drafting {
        1int
    } else {
        0int
    }
    &&& forall|i: int|
        0 <= i < projects.len() ==> pieces_view(#[trigger] v.lines@[i]@) == project_line(
            projects[i],
        )
    &&& match app.screen.mode {
        ScreenMode::Insert(d) => d.target is Project ==> pieces_view(v.lines@[projects.len() as int]@)
            == seq![(" "@, Tone::Plain), (d.text@ + "▌"@, Tone::Yellow)],
        ScreenMode::Navigate => true,
    }
    &&& v.selected == if drafting {
        Some(projects.len() as usize)
    } else if projects.len() == 0 {
        None
    } else if app.screen.sidebar_cursor < projects.len() {
        Some(app.screen.sidebar_cursor)
    } else {
        Some((projects.len() - 1) as usize)
    }
}

/// The sidebar line of project `p` (see `project_line`).
fn project_row(p: &Project) -> (v: Vec<Piece>)
    ensures
        pieces_view(v@) == project_line(*p),
{
    let done: usize = p.complete_tasks();
    let total: usize = p.task_count();
    let mut name = " ".to_owned();
    name.append(p.name.as_str());
    let mut count = "  ".to_owned();
    push_decimal(&mut count, done as u64);
    count.append("/");
    push_decimal(&mut count, total as u64);
    let mut v: Vec<Piece> = Vec::new();
    v.push(Piece { text: name, tone: Tone::Plain });
    v.push(Piece { text: count, tone: Tone::Gray });
    assert(pieces_view(v@) =~= project_line(*p));
    v
}

/// The sidebar of `app` (see `sidebar_spec`).
pub fn sidebar_view(app: &App) -> (v: SidebarView)
    ensures
        sidebar_spec(*app, v),
{
    let projects = &app.workspace.projects;
    let mut lines: Vec<Vec<Piece>> = Vec::new();
    let mut i: usize = 0;
    while i < projects.len()
        invariant
            i <= projects@.len(),
            lines@.len() == i,
            forall|m: int| 0 <= m < i ==> pieces_view(#[trigger] lines@[m]@) == project_line(projects@[m]),
        decreases projects@.len() - i,
    {
        lines.push(project_row(&projects[i]));
        i = i + 1;
    }
    let mut draft_idx: Option<usize> = None;
    if let ScreenMode::Insert(d) = &app.screen.mode {
        if let InsertTarget::Project = d.target {
            let mut text = d.text.clone();
            text.append("▌");
            let mut row: Vec<Piece> = Vec::new();
            row.push(Piece { text: " ".to_owned(), tone: Tone::Plain });
            row.push(Piece { text, tone: Tone::Yellow });
            assert(pieces_view(row@) =~= seq![(" "@, Tone::Plain), (d.text@ + "▌"@, Tone::Yellow)]);
            draft_idx = Some(lines.len());
            lines.push(row);
        }
    }
    let n: usize = projects.len();
    let selected = match draft_idx {
        Some(k) => Some(k),
        None => if n == 0 {
            None
        } else if app.screen.sidebar_cursor < n {
            Some(app.screen.sidebar_cursor)
        } else {
            Some(n - 1)
        },
    };
    let focused = match app.screen.focus {
        ProjectFocus::Sidebar => true,
        ProjectFocus::Tree => false,
    };
    SidebarView { title: " WORKSPACE ".to_owned(), lines, selected, focused }
}

} // verus!
