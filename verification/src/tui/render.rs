//! What the screen shows, as plain values: the task tree pane, the help
//! line and the confirm popup. Painting them on a terminal happens outside
//! the library.

use vstd::prelude::*;

use crate::models::priority::Priority;
use crate::models::project::{first_task_at, has_task, lemma_first_task_unique, Project};
use crate::models::status::Status;
use crate::models::subtask::Subtask;
use crate::models::task::{
    done_count, first_subtask_at, has_subtask, lemma_done_count_bound, lemma_first_subtask_unique,
    Task,
};
use crate::text::{decimal, push_decimal, push_repeat, repeat_spec};
use crate::tui::app::{App, ProjectFocus, ScreenMode, TreeRowId};
use crate::tui::draft::{Draft, InsertTarget};
use crate::tui::tree::{
    cursor_index, flatten, flatten_spec, index_of, last_child, last_child_row,
    lemma_index_of_bound, lemma_last_child_bound, lemma_same_rows_ids, row_ids, same_row,
    same_rows, RowKind, TreeRow,
};
use crate::ui::{byte_len, text_byte_len};

verus! {

broadcast use vstd::string::group_string_axioms;

/// Below this width the sidebar is hidden.
pub const SIDEBAR_MIN_WIDTH: u16 = 100;

/// Width of the sidebar.
pub const SIDEBAR_WIDTH: u16 = 22;

/// Height of the help line.
pub const HELP_HEIGHT: u16 = 1;

/// How a piece of text is coloured.
#[derive(Debug, Clone, Copy, PartialEq, Eq, Structural)]
pub enum Tone {
    /// The terminal's default style.
    Plain,
    Gray,
    Yellow,
    Green,
    Red,
    Cyan,
}

/// A run of text in one tone.
#[derive(Debug)]
pub struct Piece {
    pub text: String,
    pub tone: Tone,
}

/// The text and tone of each piece.
pub open spec fn pieces_view(v: Seq<Piece>) -> Seq<(Seq<char>, Tone)> {
    v.map_values(|p: Piece| (p.text@, p.tone))
}

/// Whether the sidebar is shown on a screen `width` columns wide.
pub fn shows_sidebar(width: u16) -> (b: bool)
    ensures
        b == (width >= SIDEBAR_MIN_WIDTH),
{
    width >= SIDEBAR_MIN_WIDTH
}

/// The tone of a pane's border: cyan when focused, gray otherwise.
pub open spec fn border_tone_spec(focused: bool) -> Tone {
    if focused {
        Tone::Cyan
    } else {
        Tone::Gray
    }
}

/// The tone of a pane's border (see `border_tone_spec`).
pub fn border_tone(focused: bool) -> (t: Tone)
    ensures
        t == border_tone_spec(focused),
{
    if focused {
        Tone::Cyan
    } else {
        Tone::Gray
    }
}

/// How a task status is shown: `New` in gray, `WIP` in yellow, `Done` in
/// green.
pub open spec fn status_piece_spec(s: Status) -> (Seq<char>, Tone) {
    match s {
        Status::New => ("New"@, Tone::Gray),
        Status::InProgress => ("WIP"@, Tone::Yellow),
        Status::Completed => ("Done"@, Tone::Green),
    }
}

/// How a priority is shown: a red `!` for high, a yellow `·` for medium,
/// a blank for low.
pub open spec fn priority_piece_spec(p: Priority) -> (Seq<char>, Tone) {
    match p {
        Priority::High => ("!"@, Tone::Red),
        Priority::Medium => ("·"@, Tone::Yellow),
        Priority::Low => (" "@, Tone::Plain),
    }
}

/// A piece of the literal `text` in `tone`.
fn piece(text: &str, tone: Tone) -> (p: Piece)
    ensures
        p.text@ == text@,
        p.tone == tone,
{
    Piece { text: text.to_owned(), tone }
}

/// The piece showing status `s` (see `status_piece_spec`).
pub fn status_piece(s: Status) -> (p: Piece)
    ensures
        (p.text@, p.tone) == status_piece_spec(s),
{
    match s {
        Status::New => piece("New", Tone::Gray),
        Status::InProgress => piece("WIP", Tone::Yellow),
        Status::Completed => piece("Done", Tone::Green),
    }
}

/// The piece showing priority `p` (see `priority_piece_spec`).
pub fn priority_piece(p: Priority) -> (r: Piece)
    ensures
        (r.text@, r.tone) == priority_piece_spec(p),
{
    match p {
        Priority::High => piece("!", Tone::Red),
        Priority::Medium => piece("·", Tone::Yellow),
        Priority::Low => piece(" ", Tone::Plain),
    }
}

/// A bar `width` cells wide, `done * width / total` of them full (`█`) and
/// the rest empty (`░`); all empty when `total` is zero.
pub open spec fn bar_spec(done: nat, total: nat, width: nat) -> Seq<char> {
    if total == 0 {
        repeat_spec("░"@, width)
    } else {
        let filled = done * width / total;
        repeat_spec("█"@, filled) + repeat_spec("░"@, (width - filled) as nat)
    }
}

/// The progress bar of `done` out of `total` (see `bar_spec`).
pub fn progress_bar(done: usize, total: usize, width: usize) -> (s: String)
    requires
        done <= total,
    ensures
        s@ == bar_spec(done as nat, total as nat, width as nat),
{
    let mut s = String::new();
    if total == 0 {
        push_repeat(&mut s, "░", width);
        return s;
    }
    proof {
        assert(done * width <= 0xffff_ffff_ffff_ffffnat * 0xffff_ffff_ffff_ffffnat) by (nonlinear_arith)
            requires
                done <= 0xffff_ffff_ffff_ffffnat,
                width <= 0xffff_ffff_ffff_ffffnat,
        ;
    }
    let wide: u128 = (done as u128) * (width as u128) / (total as u128);
    proof {
        assert(done * width <= total * width) by (nonlinear_arith)
            requires
                done <= total,
        ;
        assert((done * width) / (total as int) <= width) by (nonlinear_arith)
            requires
                done * width <= total * width,
                total > 0,
        ;
    }
    assert(wide == (done * width) / (total as int));
    let filled = wide as usize;
    push_repeat(&mut s, "█", filled);
    push_repeat(&mut s, "░", width - filled);
    s
}

/// The glyph joining a subtask row to its parent: none for tasks, `└─` for
/// the last subtask, `├─` for the others.
pub open spec fn branch_glyph_spec(row: TreeRow) -> Seq<char> {
    if row.depth == 0 {
        ""@
    } else if row.last_in_group {
        "└─"@
    } else {
        "├─"@
    }
}

/// The start of a row: two blanks per level of nesting, then the glyph.
pub open spec fn lead_spec(row: TreeRow) -> Seq<char> {
    repeat_spec("  "@, row.depth as nat) + branch_glyph_spec(row)
}

/// The marker before a task: `▼ ` when its subtasks are shown, `▶ ` when
/// they are hidden, blanks for a task without subtasks.
pub open spec fn expand_glyph_spec(kind: RowKind) -> Seq<char> {
    match kind {
        RowKind::Parent { expanded } => if expanded {
            "▼ "@
        } else {
            "▶ "@
        },
        _ => "  "@,
    }
}

/// The first task of `p` with id `tid`.
pub open spec fn task_at(p: Project, tid: u32) -> Task {
    p.tasks@[choose|k: int| first_task_at(p.tasks@, tid, k)]
}

/// The first subtask of `t` with id `sid`.
pub open spec fn subtask_at(t: Task, sid: u32) -> Subtask {
    t.subtasks@[choose|j: int| first_subtask_at(t.subtasks@, sid, j)]
}

/// The pieces of the row of subtask `s`.
pub open spec fn subtask_pieces(lead: Seq<char>, s: Subtask) -> Seq<(Seq<char>, Tone)> {
    seq![
        (lead + " "@ + (if s.completed {
            "[x]"@
        } else {
            "[ ]"@
        }) + " "@, Tone::Plain),
        priority_piece_spec(s.priority),
        (" "@ + s.description@, Tone::Plain),
    ]
}

/// The pieces of the row of task `t`, followed by its progress when it has
/// subtasks: an 8-cell bar and `done/total`.
pub open spec fn task_pieces(lead: Seq<char>, kind: RowKind, t: Task) -> Seq<(Seq<char>, Tone)> {
    let total = t.subtasks@.len();
    let done = done_count(t.subtasks@);
    seq![
        (lead + expand_glyph_spec(kind), Tone::Plain),
        status_piece_spec(t.status),
        (" "@, Tone::Plain),
        priority_piece_spec(t.priority),
        (" "@ + t.description@, Tone::Plain),
    ] + if total > 0 {
        seq![
            ("  "@, Tone::Plain),
            (bar_spec(done, total, 8), Tone::Green),
            (" "@ + decimal(done) + "/"@ + decimal(total), Tone::Plain),
        ]
    } else {
        Seq::empty()
    }
}

/// The pieces a tree row is shown as. A draft shows its text and a cursor
/// block; a subtask its checkbox, priority and description (or `?` when it
/// is gone); a task its expand marker, status, priority, description and
/// progress (or `?` when it is gone).
pub open spec fn row_pieces(row: TreeRow, p: Project) -> Seq<(Seq<char>, Tone)> {
    let lead = lead_spec(row);
    match row.kind {
        RowKind::Drafting { text } => seq![
            (lead + "  "@, Tone::Plain),
            (text@ + "▌"@, Tone::Yellow),
        ],
        RowKind::Subtask => match row.id {
            TreeRowId::Subtask { task, sub } => if has_task(p.tasks@, task) && has_subtask(
                task_at(p, task).subtasks@,
                sub,
            ) {
                subtask_pieces(lead, subtask_at(task_at(p, task), sub))
            } else {
                seq![(lead + " [ ] "@, Tone::Plain), (""@, Tone::Plain), (" ?"@, Tone::Plain)]
            },
            _ => seq![(lead + " [ ] "@, Tone::Plain), (""@, Tone::Plain), (" ?"@, Tone::Plain)],
        },
        _ => match row.id {
            TreeRowId::Task(tid) => if has_task(p.tasks@, tid) {
                task_pieces(lead, row.kind, task_at(p, tid))
            } else {
                seq![("?"@, Tone::Plain)]
            },
            _ => seq![("?"@, Tone::Plain)],
        },
    }
}

/// The glyph joining a row to its parent (see `branch_glyph_spec`).
pub fn branch_glyph(row: &TreeRow) -> (g: &'static str)
    ensures
        g@ == branch_glyph_spec(*row),
{
    if row.depth == 0 {
        return "";
    }
    if row.last_in_group {
        "└─"
    } else {
        "├─"
    }
}

/// The start of a row (see `lead_spec`).
fn lead(row: &TreeRow) -> (s: String)
    ensures
        s@ == lead_spec(*row),
{
    let mut s = String::new();
    push_repeat(&mut s, "  ", row.depth as usize);
    s.append(branch_glyph(row));
    s
}

/// `a` followed by `b`.
fn joined(a: &str, b: &str) -> (s: String)
    ensures
        s@ == a@ + b@,
{
    let mut s = a.to_owned();
    s.append(b);
    s
}

/// The pieces of the row of subtask `s` (see `subtask_pieces`).
fn subtask_row(lead: String, s: &Subtask) -> (v: Vec<Piece>)
    ensures
        pieces_view(v@) == subtask_pieces(lead@, *s),
{
    let mut first = lead;
    first.append(" ");
    first.append(if s.completed { "[x]" } else { "[ ]" });
    first.append(" ");
    let mut v: Vec<Piece> = Vec::new();
    v.push(Piece { text: first, tone: Tone::Plain });
    v.push(priority_piece(s.priority));
    v.push(Piece { text: joined(" ", s.description.as_str()), tone: Tone::Plain });
    assert(pieces_view(v@) =~= subtask_pieces(lead@, *s));
    v
}

/// The pieces of the row of task `t` (see `task_pieces`).
fn task_row(lead: String, kind: &RowKind, t: &Task) -> (v: Vec<Piece>)
    ensures
        pieces_view(v@) == task_pieces(lead@, *kind, *t),
{
    let mut first = lead;
    match kind {
        RowKind::Parent { expanded } => {
            first.append(if *expanded { "▼ " } else { "▶ " });
        },
        _ => {
            first.append("  ");
        },
    }
    let mut v: Vec<Piece> = Vec::new();
    v.push(Piece { text: first, tone: Tone::Plain });
    v.push(status_piece(t.status));
    v.push(piece(" ", Tone::Plain));
    v.push(priority_piece(t.priority));
    v.push(Piece { text: joined(" ", t.description.as_str()), tone: Tone::Plain });
    let total: usize = t.subtasks.len();
    if total > 0 {
        let done: usize = t.completed_subtask_count();
        proof {
            lemma_done_count_bound(t.subtasks@);
        }
        v.push(piece("  ", Tone::Plain));
        v.push(Piece { text: progress_bar(done, total, 8), tone: Tone::Green });
        let mut count = " ".to_owned();
        push_decimal(&mut count, done as u64);
        count.append("/");
        push_decimal(&mut count, total as u64);
        v.push(Piece { text: count, tone: Tone::Plain });
    }
    assert(pieces_view(v@) =~= task_pieces(lead@, *kind, *t));
    v
}

/// The pieces of the row of a subtask that is gone.
fn unknown_subtask_row(lead: String) -> (v: Vec<Piece>)
    ensures
        pieces_view(v@) == seq![
            (lead@ + " [ ] "@, Tone::Plain),
            (""@, Tone::Plain),
            (" ?"@, Tone::Plain),
        ],
{
    let mut first = lead;
    first.append(" [ ] ");
    let mut v: Vec<Piece> = Vec::new();
    v.push(Piece { text: first, tone: Tone::Plain });
    v.push(piece("", Tone::Plain));
    v.push(piece(" ?", Tone::Plain));
    assert(pieces_view(v@) =~= seq![
        (lead@ + " [ ] "@, Tone::Plain),
        (""@, Tone::Plain),
        (" ?"@, Tone::Plain),
    ]);
    v
}

/// The pieces `row` of project `project` is shown as (see `row_pieces`).
pub fn format_row(row: &TreeRow, project: &Project) -> (v: Vec<Piece>)
    ensures
        pieces_view(v@) == row_pieces(*row, *project),
{
    let lead = lead(row);
    match &row.kind {
        RowKind::Drafting { text } => {
            let mut first = lead;
            first.append("  ");
            let mut v: Vec<Piece> = Vec::new();
            v.push(Piece { text: first, tone: Tone::Plain });
            v.push(Piece { text: joined(text.as_str(), "▌"), tone: Tone::Yellow });
            assert(pieces_view(v@) =~= row_pieces(*row, *project));
            v
        },
        RowKind::Subtask => {
            if let TreeRowId::Subtask { task: tid, sub: sid } = row.id {
                if let Ok(k) = project.get_task(tid) {
                    proof {
                        lemma_first_task_unique(project.tasks@, tid, k as int);
                    }
                    let t = &project.tasks[k];
                    if let Ok(j) = t.get_subtask(sid) {
                        proof {
                            lemma_first_subtask_unique(t.subtasks@, sid, j as int);
                        }
                        return subtask_row(lead, &t.subtasks[j]);
                    }
                }
            }
            unknown_subtask_row(lead)
        },
        _ => {
            if let TreeRowId::Task(tid) = row.id {
                if let Ok(k) = project.get_task(tid) {
                    proof {
                        lemma_first_task_unique(project.tasks@, tid, k as int);
                    }
                    return task_row(lead, &row.kind, &project.tasks[k]);
                }
            }
            let mut v: Vec<Piece> = Vec::new();
            v.push(piece("?", Tone::Plain));
            assert(pieces_view(v@) =~= seq![("?"@, Tone::Plain)]);
            v
        },
    }
}

/// Where the draft row goes among rows with ids `ids`: after the task it
/// follows, after the last shown subtask of its task (or after the task),
/// or at the end.
pub open spec fn splice_at(ids: Seq<TreeRowId>, target: InsertTarget) -> usize {
    let after_task = |tid: u32|
        match index_of(ids, TreeRowId::Task(tid)) {
            Some(i) => (i + 1) as usize,
            None => ids.len() as usize,
        };
    match target {
        InsertTarget::TaskSibling { after } => after_task(after),
        InsertTarget::Subtask { task } => match last_child(ids, task) {
            Some(i) => (i + 1) as usize,
            None => after_task(task),
        },
        _ => ids.len() as usize,
    }
}

/// The row a draft is shown as, in place of the row it will become.
pub open spec fn draft_row_spec(d: Draft) -> TreeRow {
    TreeRow {
        id: TreeRowId::Task(u32::MAX),
        depth: if d.target is Subtask {
            1
        } else {
            0
        },
        last_in_group: true,
        kind: RowKind::Drafting { text: d.text },
    }
}

/// The rows with the draft's row inserted where it goes (see `splice_at`),
/// and its position.
pub fn splice_draft(rows: Vec<TreeRow>, draft: &Draft) -> (out: (Vec<TreeRow>, usize))
    ensures
        out.1 == splice_at(row_ids(rows@), draft.target),
        out.1 <= rows@.len(),
        same_rows(out.0@, rows@.insert(out.1 as int, draft_row_spec(*draft))),
{
    let ghost ids = row_ids(rows@);
    let draft_row = TreeRow {
        id: TreeRowId::Task(u32::MAX),
        depth: match draft.target {
            InsertTarget::Subtask { .. } => 1,
            _ => 0,
        },
        last_in_group: true,
        kind: RowKind::Drafting { text: draft.text.clone() },
    };
    let after_task = match draft.target {
        InsertTarget::TaskSibling { after } => Some(after),
        InsertTarget::Subtask { task } => Some(task),
        _ => None,
    };
    let mut idx: usize = rows.len();
    if let InsertTarget::Subtask { task } = draft.target {
        if let Some(i) = last_child_row(&rows, task) {
            proof {
                lemma_last_child_bound(ids, task);
            }
            idx = i + 1;
        } else {
            if let Some(i) = cursor_index(rows.as_slice(), TreeRowId::Task(task)) {
                proof {
                    lemma_index_of_bound(ids, TreeRowId::Task(task));
                }
                idx = i + 1;
            }
        }
    } else if let InsertTarget::TaskSibling { after } = draft.target {
        if let Some(i) = cursor_index(rows.as_slice(), TreeRowId::Task(after)) {
            proof {
                lemma_index_of_bound(ids, TreeRowId::Task(after));
            }
            idx = i + 1;
        }
    }
    let ghost before = rows@;
    let mut out = rows;
    out.insert(idx, draft_row);
    proof {
        let want = before.insert(idx as int, draft_row_spec(*draft));
        assert forall|k: int| 0 <= k < out@.len() implies same_row(#[trigger] out@[k], want[k]) by {}
    }
    (out, idx)
}

/// Rows that are the same rows are shown the same.
pub proof fn lemma_same_row_pieces(a: TreeRow, b: TreeRow, p: Project)
    requires
        same_row(a, b),
    ensures
        row_pieces(a, p) == row_pieces(b, p),
{
    assert(lead_spec(a) == lead_spec(b));
    assert(row_pieces(a, p) =~= row_pieces(b, p));
}

/// The message of the tree pane when there is no project.
pub open spec fn no_project_message() -> Seq<char> {
    "No projects — press `i` to create one"@
}

/// What the tree pane shows.
#[derive(Debug)]
pub enum TreePane {
    /// No project is open: a message.
    Empty { message: String, focused: bool },
    /// The open project's tree: its name as the title, one line per row and
    /// the highlighted row.
    Tasks { title: String, lines: Vec<Vec<Piece>>, selected: Option<usize>, focused: bool },
}

/// The rows the tree pane lists: the tree, with the draft's row spliced in
/// while a task or subtask is being typed; and the draft row's position.
pub open spec fn listed_rows(rows: Seq<TreeRow>, mode: ScreenMode) -> (Seq<TreeRow>, Option<usize>) {
    match mode {
        ScreenMode::Insert(d) => if d.target is Project {
            (rows, None)
        } else {
            let k = splice_at(row_ids(rows), d.target);
            (rows.insert(k as int, draft_row_spec(d)), Some(k))
        },
        ScreenMode::Navigate => (rows, None),
    }
}

/// The tree pane of `app`: with no open project, the message; otherwise the
/// project's name as the title, the pieces of each listed row, and the row
/// of the cursor highlighted (the draft's row when the cursor is not
/// listed).
pub open spec fn tree_pane_spec(app: App, pane: TreePane) -> bool {
    let focused = app.screen.focus == ProjectFocus::Tree;
    match app.screen.p_idx {
        None => pane matches TreePane::Empty { message, focused: f } && message@ == no_project_message() && f == focused,
        Some(i) => {
            let p = app.workspace.projects@[i as int];
            let listed = listed_rows(flatten_spec(p, app.screen.tree.expanded@), app.screen.mode);
            let list = listed.0;
            &&& pane matches TreePane::Tasks { title, lines, selected, focused: f }
            &&& f == focused
            &&& title@ == " "@ + p.name@ + " "@
            &&& lines@.len() == list.len()
            &&& forall|j: int| 0 <= j < list.len() ==> pieces_view(#[trigger] lines@[j]@) == row_pieces(list[j], p)
            &&& selected == match app.screen.tree.cursor {
                Some(c) => match index_of(row_ids(list), c) {
                    Some(j) => Some(j),
                    None => listed.1,
                },
                None => listed.1,
            }
        },
    }
}

/// The tree pane of `app` (see `tree_pane_spec`).
pub fn tree_pane(app: &App) -> (pane: TreePane)
    requires
        app@.wf(),
    ensures
        tree_pane_spec(*app, pane),
{
    let focused = match app.screen.focus {
        ProjectFocus::Tree => true,
        ProjectFocus::Sidebar => false,
    };
    let p_idx: usize = match app.screen.p_idx {
        Some(i) => i,
        None => {
            let message = "No projects — press `i` to create one".to_owned();
            return TreePane::Empty { message, focused };
        },
    };
    let project = &app.workspace.projects[p_idx];
    let rows = flatten(project, &app.screen.tree.expanded);
    let ghost spec_rows = flatten_spec(*project, app.screen.tree.expanded@);
    proof {
        lemma_same_rows_ids(rows@, spec_rows);
    }
    let ghost rows_before = rows@;
    assert(same_rows(rows_before, spec_rows));
    let (list, draft_idx) = match &app.screen.mode {
        ScreenMode::Insert(draft) => {
            if let InsertTarget::Project = draft.target {
                (rows, None)
            } else {
                let (spliced, k) = splice_draft(rows, draft);
                (spliced, Some(k))
            }
        },
        ScreenMode::Navigate => (rows, None),
    };
    let ghost listed = listed_rows(spec_rows, app.screen.mode);
    proof {
        if let ScreenMode::Insert(d) = &app.screen.mode {
            if !(d.target is Project) {
                let k = draft_idx->0;
                assert forall|j: int| 0 <= j < list@.len() implies same_row(#[trigger] list@[j], listed.0[j]) by {
                    assert(same_row(list@[j], rows_before.insert(k as int, draft_row_spec(*d))[j]));
                    if j < k {
                        assert(same_row(rows_before[j], spec_rows[j]));
                    } else if j > k {
                        assert(same_row(rows_before[j - 1], spec_rows[j - 1]));
                    }
                }
            }
        }
        assert(same_rows(list@, listed.0));
        lemma_same_rows_ids(list@, listed.0);
    }
    let selected = match app.screen.tree.cursor {
        Some(c) => match cursor_index(list.as_slice(), c) {
            Some(j) => Some(j),
            None => draft_idx,
        },
        None => draft_idx,
    };
    let mut lines: Vec<Vec<Piece>> = Vec::new();
    let mut j: usize = 0;
    while j < list.len()
        invariant
            j <= list@.len(),
            lines@.len() == j,
            same_rows(list@, listed.0),
            forall|m: int| 0 <= m < j ==> pieces_view(#[trigger] lines@[m]@) == row_pieces(listed.0[m], *project),
        decreases list@.len() - j,
    {
        let line = format_row(&list[j], project);
        proof {
            lemma_same_row_pieces(list@[j as int], listed.0[j as int], *project);
        }
        lines.push(line);
        j = j + 1;
    }
    let mut title = " ".to_owned();
    title.append(project.name.as_str());
    title.append(" ");
    TreePane::Tasks { title, lines, selected, focused }
}

/// The help line: the error when there is one (red, after ` ! `); else the
/// keys of insert mode or of the focused pane (gray).
pub open spec fn help_spec(app: App) -> (Seq<char>, Tone) {
    match app.error {
        Some(e) => (" ! "@ + e@, Tone::Red),
        None => match app.screen.mode {
            ScreenMode::Insert(_) => (" Enter commit  ·  Esc cancel"@, Tone::Gray),
            ScreenMode::Navigate => match app.screen.focus {
                ProjectFocus::Sidebar => (
                    " j/k select  ·  Enter open  ·  i new project  ·  Tab tree"@,
                    Tone::Gray,
                ),
                ProjectFocus::Tree => (
                    " j/k move  ·  l/h expand  ·  space toggle  ·  i new  ·  I child  ·  dd delete  ·  Tab sidebar"@,
                    Tone::Gray,
                ),
            },
        },
    }
}

/// The help line of `app` (see `help_spec`).
pub fn help_line(app: &App) -> (p: Piece)
    ensures
        (p.text@, p.tone) == help_spec(*app),
{
    if let Some(err) = &app.error {
        return Piece { text: joined(" ! ", err.as_str()), tone: Tone::Red };
    }
    if let ScreenMode::Insert(_) = &app.screen.mode {
        return piece(" Enter commit  ·  Esc cancel", Tone::Gray);
    }
    match app.screen.focus {
        ProjectFocus::Sidebar => piece(
            " j/k select  ·  Enter open  ·  i new project  ·  Tab tree",
            Tone::Gray,
        ),
        ProjectFocus::Tree => piece(
            " j/k move  ·  l/h expand  ·  space toggle  ·  i new  ·  I child  ·  dd delete  ·  Tab sidebar",
            Tone::Gray,
        ),
    }
}

/// A rectangle of the screen, in cells.
#[derive(Debug, Clone, Copy, PartialEq, Eq, Structural)]
pub struct Area {
    pub x: u16,
    pub y: u16,
    pub width: u16,
    pub height: u16,
}

/// `a - b`, or zero when `b` is larger.
pub open spec fn sat_sub(a: u16, b: u16) -> u16 {
    if a >= b {
        (a - b) as u16
    } else {
        0
    }
}

/// The confirm popup over `area` for a prompt of `len` bytes: three rows
/// high, the prompt's width plus four (counted in a `u16`) but at most four
/// less than the area, and centred.
pub open spec fn popup_spec(len: usize, area: Area) -> Area {
    let wanted = ((len as u16) + 4) as u16;
    let width = if wanted <= sat_sub(area.width, 4) {
        wanted
    } else {
        sat_sub(area.width, 4)
    };
    Area {
        x: (area.x + sat_sub(area.width, width) / 2) as u16,
        y: (area.y + sat_sub(area.height, 3) / 2) as u16,
        width,
        height: 3,
    }
}

/// Whether the popup for a prompt of `len` bytes over `area` can be
/// computed without overflowing a `u16`.
pub open spec fn popup_fits(len: usize, area: Area) -> bool {
    let p = popup_spec(len, area);
    &&& (len as u16) + 4 <= u16::MAX
    &&& area.x + sat_sub(area.width, p.width) / 2 <= u16::MAX
    &&& area.y + sat_sub(area.height, 3) / 2 <= u16::MAX
}

/// Whether the popup for `prompt` over `area` can be computed (see
/// `popup_fits`); the computation overflows otherwise.
pub fn popup_fits_check(prompt: &String, area: Area) -> (b: bool)
    ensures
        b == popup_fits(byte_len(prompt@), area),
{
    let len = text_byte_len(prompt);
    let short = len as u16;
    if short > 65531 {
        return false;
    }
    let wanted: u16 = short + 4;
    let room: u16 = if area.width >= 4 {
        area.width - 4
    } else {
        0
    };
    let width: u16 = if wanted <= room {
        wanted
    } else {
        room
    };
    let free_x: u16 = if area.width >= width {
        area.width - width
    } else {
        0
    };
    let free_y: u16 = if area.height >= 3 {
        area.height - 3
    } else {
        0
    };
    (area.x as u32) + ((free_x / 2) as u32) <= 65535 && (area.y as u32) + ((free_y / 2) as u32) <= 65535
}

/// Where the confirm popup for `prompt` goes over `area` (see `popup_spec`).
pub fn popup_area(prompt: &String, area: Area) -> (r: Area)
    requires
        popup_fits(byte_len(prompt@), area),
    ensures
        r == popup_spec(byte_len(prompt@), area),
{
    let len = text_byte_len(prompt);
    let wanted: u16 = (len as u16) + 4;
    let room: u16 = if area.width >= 4 {
        area.width - 4
    } else {
        0
    };
    let width: u16 = if wanted <= room {
        wanted
    } else {
        room
    };
    let free_x: u16 = if area.width >= width {
        area.width - width
    } else {
        0
    };
    let free_y: u16 = if area.height >= 3 {
        area.height - 3
    } else {
        0
    };
    Area { x: area.x + free_x / 2, y: area.y + free_y / 2, width, height: 3 }
}

} // verus!
