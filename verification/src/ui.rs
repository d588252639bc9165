//! What the command line prints: the task list and the project list (which
//! rows, in which order) and the reports of commands, as lines of inked
//! pieces. Turning inks into terminal colours happens outside the library.

use vstd::prelude::*;

use crate::models::priority::Priority;
use crate::models::project::{keep, Project};
use crate::models::status::Status;
use crate::models::subtask::Subtask;
use crate::models::task::{done_count, Task};
use crate::dispatch::{Action, ProjectReport, TaskReport};
use crate::style::{
    action_spec, date_text, fmt_action_item, fmt_date, fmt_id, fmt_status_header, fmt_sub_line,
    fmt_task_line, pad_right, pad_spec, status_header_spec, styled_view, sub_line_spec,
    task_line_spec, Ink, Styled,
};
use crate::text::{decimal, push_decimal};
use crate::workspace::Workspace;

verus! {

/// The length in bytes of the UTF-8 encoding of `s`, as `str::len` gives it.
pub open spec fn byte_len(s: Seq<char>) -> usize {
    vstd::utf8::encode_utf8(s).len() as usize
}

/// The length in bytes of `s`.
pub fn text_byte_len(s: &String) -> (n: usize)
    ensures
        n == byte_len(s@),
{
    s.as_str().len()
}

/// The larger of two numbers.
pub open spec fn max_of(a: nat, b: nat) -> nat {
    if a >= b {
        a
    } else {
        b
    }
}

/// The longest subtask description, in bytes (zero without subtasks).
pub open spec fn max_subtask_len(subs: Seq<Subtask>) -> nat
    decreases subs.len(),
{
    if subs.len() == 0 {
        0
    } else {
        max_of(max_subtask_len(subs.drop_last()), byte_len(subs.last().description@) as nat)
    }
}

/// The longest description of a task or subtask, in bytes (zero without
/// tasks).
pub open spec fn max_desc_len(tasks: Seq<Task>) -> nat
    decreases tasks.len(),
{
    if tasks.len() == 0 {
        0
    } else {
        max_of(
            max_desc_len(tasks.drop_last()),
            max_of(
                byte_len(tasks.last().description@) as nat,
                max_subtask_len(tasks.last().subtasks@),
            ),
        )
    }
}

/// The column width for descriptions: the longest description of a task or
/// subtask in bytes, and at least ten.
pub open spec fn desc_width(tasks: Seq<Task>) -> nat {
    max_of(max_desc_len(tasks), 10)
}

/// The status a subtask is listed under: `Completed` when done, else `New`.
pub open spec fn subtask_status_spec(s: Subtask) -> Status {
    if s.completed {
        Status::Completed
    } else {
        Status::New
    }
}

/// Whether task `t` is listed in the section for `section`: it has that
/// status, or, when the listing is filtered, one of its subtasks is listed
/// under it.
pub open spec fn in_section(t: Task, section: Status, filtered: bool) -> bool {
    t.status == section || (filtered && exists|j: int|
        0 <= j < t.subtasks@.len() && subtask_status_spec(#[trigger] t.subtasks@[j]) == section)
}

/// The positions `0..n`, in order.
pub open spec fn positions(n: nat) -> Seq<usize> {
    Seq::new(n, |i: int| i as usize)
}

/// The positions of the tasks listed in a section, highest priority first;
/// tasks of equal priority keep their order.
pub open spec fn section_rows(tasks: Seq<Task>, section: Status, filtered: bool) -> Seq<usize> {
    keep(
        positions(tasks.len()),
        |i: usize| in_section(tasks[i as int], section, filtered) && tasks[i as int].priority == Priority::High,
    ) + keep(
        positions(tasks.len()),
        |i: usize| in_section(tasks[i as int], section, filtered) && tasks[i as int].priority == Priority::Medium,
    ) + keep(
        positions(tasks.len()),
        |i: usize| in_section(tasks[i as int], section, filtered) && tasks[i as int].priority == Priority::Low,
    )
}

/// The positions of the subtasks shown under a task in a section: all of
/// them, or, when the listing is filtered, those listed under the section.
pub open spec fn shown_subtasks(subs: Seq<Subtask>, section: Status, filtered: bool) -> Seq<usize> {
    keep(
        positions(subs.len()),
        |j: usize| !filtered || subtask_status_spec(subs[j as int]) == section,
    )
}

/// The statuses the list shows, in order: the filter when given, else in
/// progress, new, completed.
pub open spec fn listed_statuses(filter: Option<Seq<Status>>) -> Seq<Status> {
    match filter {
        Some(f) => f,
        None => seq![Status::InProgress, Status::New, Status::Completed],
    }
}

/// The status a subtask is listed under.
pub fn subtask_status(sub: &Subtask) -> (s: Status)
    ensures
        s == subtask_status_spec(*sub),
{
    if sub.completed {
        Status::Completed
    } else {
        Status::New
    }
}

/// The column width for descriptions in the task list.
pub fn task_desc_width(project: &Project) -> (w: usize)
    ensures
        w == desc_width(project.tasks@),
{
    let mut best: usize = 0;
    let mut i: usize = 0;
    while i < project.tasks.len()
        invariant
            i <= project.tasks@.len(),
            best == max_desc_len(project.tasks@.take(i as int)),
        decreases project.tasks@.len() - i,
    {
        assert(project.tasks@.take(i + 1).drop_last() =~= project.tasks@.take(i as int));
        let t = &project.tasks[i];
        let n = text_byte_len(&t.description);
        if n > best {
            best = n;
        }
        let mut j: usize = 0;
        let ghost before = best;
        let mut sub_best: usize = 0;
        while j < t.subtasks.len()
            invariant
                j <= t.subtasks@.len(),
                sub_best == max_subtask_len(t.subtasks@.take(j as int)),
            decreases t.subtasks@.len() - j,
        {
            assert(t.subtasks@.take(j + 1).drop_last() =~= t.subtasks@.take(j as int));
            let m = text_byte_len(&t.subtasks[j].description);
            if m > sub_best {
                sub_best = m;
            }
            j = j + 1;
        }
        assert(t.subtasks@.take(j as int) =~= t.subtasks@);
        if sub_best > best {
            best = sub_best;
        }
        i = i + 1;
    }
    assert(project.tasks@.take(i as int) =~= project.tasks@);
    if best < 10 {
        10
    } else {
        best
    }
}

/// Whether task `t` is listed in the section for `section`.
pub fn task_in_section(t: &Task, section: Status, filtered: bool) -> (b: bool)
    ensures
        b == in_section(*t, section, filtered),
{
    if t.status == section {
        return true;
    }
    if !filtered {
        return false;
    }
    let mut j: usize = 0;
    while j < t.subtasks.len()
        invariant
            j <= t.subtasks@.len(),
            filtered,
            t.status != section,
            forall|k: int| 0 <= k < j ==> subtask_status_spec(#[trigger] t.subtasks@[k]) != section,
        decreases t.subtasks@.len() - j,
    {
        if subtask_status(&t.subtasks[j]) == section {
            assert(subtask_status_spec(t.subtasks@[j as int]) == section);
            return true;
        }
        j = j + 1;
    }
    false
}

/// Appends to `out` the positions of the tasks listed in `section` that
/// have priority `p`, in order.
fn push_section_rows(
    tasks: &Vec<Task>,
    section: Status,
    filtered: bool,
    p: Priority,
    out: &mut Vec<usize>,
)
    ensures
        final(out)@ == old(out)@ + keep(
            positions(tasks@.len()),
            |i: usize| in_section(tasks@[i as int], section, filtered) && tasks@[i as int].priority == p,
        ),
{
    let ghost pred = |i: usize|
        in_section(tasks@[i as int], section, filtered) && tasks@[i as int].priority == p;
    let ghost all = positions(tasks@.len());
    let mut i: usize = 0;
    while i < tasks.len()
        invariant
            i <= tasks@.len(),
            all == positions(tasks@.len()),
            pred == (|i: usize|
                in_section(tasks@[i as int], section, filtered) && tasks@[i as int].priority == p),
            out@ == old(out)@ + keep(all.take(i as int), pred),
        decreases tasks@.len() - i,
    {
        assert(all.take(i + 1).drop_last() =~= all.take(i as int));
        assert(all[i as int] == i);
        if task_in_section(&tasks[i], section, filtered) && tasks[i].priority == p {
            out.push(i);
            assert(out@ =~= old(out)@ + keep(all.take(i + 1), pred));
        }
        i = i + 1;
    }
    assert(all.take(i as int) =~= all);
}

/// The positions of the tasks listed in `section`, highest priority first.
pub fn tasks_for_section(project: &Project, section: Status, filtered: bool) -> (v: Vec<usize>)
    ensures
        v@ == section_rows(project.tasks@, section, filtered),
{
    let mut v: Vec<usize> = Vec::new();
    push_section_rows(&project.tasks, section, filtered, Priority::High, &mut v);
    push_section_rows(&project.tasks, section, filtered, Priority::Medium, &mut v);
    push_section_rows(&project.tasks, section, filtered, Priority::Low, &mut v);
    assert(v@ =~= section_rows(project.tasks@, section, filtered));
    v
}

/// The positions of the subtasks of `t` shown in `section`.
pub fn subtasks_for_section(t: &Task, section: Status, filtered: bool) -> (v: Vec<usize>)
    ensures
        v@ == shown_subtasks(t.subtasks@, section, filtered),
{
    let ghost pred = |j: usize| !filtered || subtask_status_spec(t.subtasks@[j as int]) == section;
    let ghost all = positions(t.subtasks@.len());
    let mut v: Vec<usize> = Vec::new();
    let mut j: usize = 0;
    while j < t.subtasks.len()
        invariant
            j <= t.subtasks@.len(),
            all == positions(t.subtasks@.len()),
            pred == (|j: usize| !filtered || subtask_status_spec(t.subtasks@[j as int]) == section),
            v@ == keep(all.take(j as int), pred),
        decreases t.subtasks@.len() - j,
    {
        assert(all.take(j + 1).drop_last() =~= all.take(j as int));
        assert(all[j as int] == j);
        if !filtered || subtask_status(&t.subtasks[j]) == section {
            v.push(j);
        }
        j = j + 1;
    }
    assert(all.take(j as int) =~= all);
    v
}

/// One task line of the task list.
#[derive(Debug)]
pub struct TaskRow {
    /// Position of the task in the project.
    pub task: usize,
    /// Whether it is the project's active task.
    pub is_active: bool,
    /// `(done, total)` subtasks, for a task that has subtasks.
    pub progress: Option<(usize, usize)>,
    /// Positions of the subtasks shown under it.
    pub subtasks: Vec<usize>,
}

/// One status section of the task list.
#[derive(Debug)]
pub struct Section {
    pub status: Status,
    pub rows: Vec<TaskRow>,
}

/// The task list of a project: a section per listed status.
#[derive(Debug)]
pub struct TaskSummaryView {
    /// Column width for descriptions.
    pub width: usize,
    pub sections: Vec<Section>,
}

/// Whether `row` shows task `i` of `p` in `section`.
pub open spec fn row_shows(row: TaskRow, p: Project, i: usize, section: Status, filtered: bool) -> bool {
    let t = p.tasks@[i as int];
    &&& row.task == i
    &&& row.is_active == (p.active_task_id == Some(t.id))
    &&& row.progress == (if t.subtasks@.len() == 0 {
        None
    } else {
        Some((done_count(t.subtasks@) as usize, t.subtasks@.len() as usize))
    })
    &&& row.subtasks@ == shown_subtasks(t.subtasks@, section, filtered)
}

/// Whether `sec` lists the tasks of `p` for `status`.
pub open spec fn section_shows(sec: Section, p: Project, status: Status, filtered: bool) -> bool {
    let order = section_rows(p.tasks@, status, filtered);
    &&& sec.status == status
    &&& sec.rows@.len() == order.len()
    &&& forall|r: int|
        0 <= r < order.len() ==> row_shows(#[trigger] sec.rows@[r], p, order[r], status, filtered)
}

/// The task line for task `i` in `section`.
fn task_row(project: &Project, i: usize, section: Status, filtered: bool) -> (row: TaskRow)
    requires
        i < project.tasks@.len(),
    ensures
        row_shows(row, *project, i, section, filtered),
{
    let t = &project.tasks[i];
    let is_active = match project.active_task_id {
        Some(a) => a == t.id,
        None => false,
    };
    let progress = if t.subtasks.len() == 0 {
        None
    } else {
        Some((t.completed_subtask_count(), t.subtasks.len()))
    };
    TaskRow { task: i, is_active, progress, subtasks: subtasks_for_section(t, section, filtered) }
}

/// The rows of a section are positions of tasks.
proof fn lemma_section_rows_in_range(tasks: Seq<Task>, section: Status, filtered: bool)
    ensures
        forall|r: int|
            0 <= r < section_rows(tasks, section, filtered).len() ==> #[trigger] section_rows(
                tasks,
                section,
                filtered,
            )[r] < tasks.len(),
{
    let all = positions(tasks.len());
    let ph = |i: usize| in_section(tasks[i as int], section, filtered) && tasks[i as int].priority == Priority::High;
    let pm = |i: usize| in_section(tasks[i as int], section, filtered) && tasks[i as int].priority == Priority::Medium;
    let pl = |i: usize| in_section(tasks[i as int], section, filtered) && tasks[i as int].priority == Priority::Low;
    lemma_keep_bounded(all, ph, tasks.len());
    lemma_keep_bounded(all, pm, tasks.len());
    lemma_keep_bounded(all, pl, tasks.len());
}

/// Keeping elements of a sequence of numbers below `n` keeps them below `n`.
proof fn lemma_keep_bounded(s: Seq<usize>, p: spec_fn(usize) -> bool, n: nat)
    requires
        forall|i: int| 0 <= i < s.len() ==> #[trigger] s[i] < n,
    ensures
        forall|i: int| 0 <= i < keep(s, p).len() ==> #[trigger] keep(s, p)[i] < n,
    decreases s.len(),
{
    if s.len() > 0 {
        lemma_keep_bounded(s.drop_last(), p, n);
        assert(s.last() == s[s.len() - 1]);
        let k = keep(s, p);
        let kd = keep(s.drop_last(), p);
        assert forall|i: int| 0 <= i < k.len() implies #[trigger] k[i] < n by {
            if p(s.last()) {
                if i < kd.len() {
                    assert(k[i] == kd[i]);
                }
            } else {
                assert(k[i] == kd[i]);
            }
        }
    }
}

/// The section for `status` of the task list of `project`.
fn section_view(project: &Project, status: Status, filtered: bool) -> (sec: Section)
    ensures
        section_shows(sec, *project, status, filtered),
        forall|r: int| 0 <= r < sec.rows@.len() ==> #[trigger] row_fits(sec.rows@[r], *project),
{
    let order = tasks_for_section(project, status, filtered);
    proof {
        lemma_section_rows_in_range(project.tasks@, status, filtered);
    }
    let mut rows: Vec<TaskRow> = Vec::new();
    let mut r: usize = 0;
    while r < order.len()
        invariant
            r <= order@.len(),
            order@ == section_rows(project.tasks@, status, filtered),
            forall|k: int| 0 <= k < order@.len() ==> #[trigger] order@[k] < project.tasks@.len(),
            rows@.len() == r,
            forall|k: int|
                0 <= k < r ==> row_shows(#[trigger] rows@[k], *project, order@[k], status, filtered),
            forall|k: int| 0 <= k < r ==> #[trigger] row_fits(rows@[k], *project),
        decreases order@.len() - r,
    {
        assert(order@[r as int] < project.tasks@.len());
        let row = task_row(project, order[r], status, filtered);
        proof {
            let t = project.tasks@[order@[r as int] as int];
            let n = t.subtasks@.len();
            lemma_keep_bounded(
                positions(n),
                |j: usize| !filtered || subtask_status_spec(t.subtasks@[j as int]) == status,
                n,
            );
        }
        rows.push(row);
        r = r + 1;
    }
    Section { status, rows }
}

/// Whether every row of `v` names a task of `p` and subtasks of that task.
pub open spec fn summary_fits(v: TaskSummaryView, p: Project) -> bool {
    forall|k: int, r: int|
        0 <= k < v.sections@.len() && 0 <= r < v.sections@[k].rows@.len() ==> #[trigger] row_fits(
            v.sections@[k].rows@[r],
            p,
        )
}

/// Whether `row` names a task of `p` and subtasks of that task.
pub open spec fn row_fits(row: TaskRow, p: Project) -> bool {
    &&& row.task < p.tasks@.len()
    &&& forall|j: int|
        0 <= j < row.subtasks@.len() ==> #[trigger] row.subtasks@[j]
            < p.tasks@[row.task as int].subtasks@.len()
}

impl TaskSummaryView {
    /// The task list of `project`, for the statuses in `filter` when given
    /// (a filtered listing), else for in progress, new and completed.
    pub fn new(project: &Project, filter: Option<&[Status]>) -> (v: Self)
        ensures
            v.width == desc_width(project.tasks@),
            ({
                let statuses = listed_statuses(
                    match filter {
                        Some(f) => Some(f@),
                        None => None,
                    },
                );
                &&& v.sections@.len() == statuses.len()
                &&& forall|k: int|
                    0 <= k < statuses.len() ==> section_shows(
                        #[trigger] v.sections@[k],
                        *project,
                        statuses[k],
                        filter is Some,
                    )
            }),
            summary_fits(v, *project),
    {
        let filtered = filter.is_some();
        let width = task_desc_width(project);
        let mut sections: Vec<Section> = Vec::new();
        match filter {
            Some(f) => {
                let mut k: usize = 0;
                while k < f.len()
                    invariant
                        k <= f@.len(),
                        filtered,
                        sections@.len() == k,
                        forall|m: int|
                            0 <= m < k ==> section_shows(#[trigger] sections@[m], *project, f@[m], true),
                        forall|m: int, r: int|
                            0 <= m < k && 0 <= r < sections@[m].rows@.len() ==> #[trigger] row_fits(
                                sections@[m].rows@[r],
                                *project,
                            ),
                    decreases f@.len() - k,
                {
                    sections.push(section_view(project, f[k], filtered));
                    k = k + 1;
                }
            },
            None => {
                sections.push(section_view(project, Status::InProgress, false));
                sections.push(section_view(project, Status::New, false));
                sections.push(section_view(project, Status::Completed, false));
            },
        }
        TaskSummaryView { width, sections }
    }
}

/// The project list of a workspace.
#[derive(Debug)]
pub struct ProjectListView {
    /// Column width for names: the longest name in bytes, at least ten.
    pub name_width: usize,
    /// For each project, in order, whether it is the active one.
    pub active: Vec<bool>,
}

/// The longest project name, in bytes (zero without projects).
pub open spec fn max_name_len(projects: Seq<Project>) -> nat
    decreases projects.len(),
{
    if projects.len() == 0 {
        0
    } else {
        max_of(max_name_len(projects.drop_last()), byte_len(projects.last().name@) as nat)
    }
}

impl ProjectListView {
    /// The project list of `workspace`.
    pub fn new(workspace: &Workspace) -> (v: Self)
        ensures
            v.name_width == max_of(max_name_len(workspace.projects@), 10),
            v.active@.len() == workspace.projects@.len(),
            forall|i: int|
                0 <= i < v.active@.len() ==> #[trigger] v.active@[i] == (workspace.active_project_id
                    == Some(workspace.projects@[i].id)),
    {
        let mut best: usize = 0;
        let mut active: Vec<bool> = Vec::new();
        let mut i: usize = 0;
        while i < workspace.projects.len()
            invariant
                i <= workspace.projects@.len(),
                best == max_name_len(workspace.projects@.take(i as int)),
                active@.len() == i,
                forall|k: int|
                    0 <= k < i ==> #[trigger] active@[k] == (workspace.active_project_id == Some(
                        workspace.projects@[k].id,
                    )),
            decreases workspace.projects@.len() - i,
        {
            assert(workspace.projects@.take(i + 1).drop_last() =~= workspace.projects@.take(
                i as int,
            ));
            let p = &workspace.projects[i];
            let n = text_byte_len(&p.name);
            if n > best {
                best = n;
            }
            let is_active = match workspace.active_project_id {
                Some(a) => a == p.id,
                None => false,
            };
            active.push(is_active);
            i = i + 1;
        }
        assert(workspace.projects@.take(i as int) =~= workspace.projects@);
        ProjectListView { name_width: if best < 10 {
            10
        } else {
            best
        }, active }
    }
}

/// The text and ink of the pieces of each line.
pub open spec fn lines_view(v: Seq<Vec<Styled>>) -> Seq<Seq<(Seq<char>, Ink)>> {
    v.map_values(|l: Vec<Styled>| styled_view(l@))
}

/// The progress badge after a task with subtasks: `[done/total]` in cyan.
pub open spec fn badge_spec(done: usize, total: usize) -> Seq<(Seq<char>, Ink)> {
    seq![
        ("  "@, Ink::Plain),
        ("["@ + decimal(done as nat) + "/"@ + decimal(total as nat) + "]"@, Ink::Cyan),
    ]
}

/// The lines of one task of the list: its line (with the badge when it has
/// subtasks), then a line per shown subtask.
pub open spec fn row_lines(row: TaskRow, p: Project, width: nat) -> Seq<Seq<(Seq<char>, Ink)>> {
    let t = p.tasks@[row.task as int];
    seq![
        task_line_spec(t, row.is_active, width) + match row.progress {
            Some((done, total)) => badge_spec(done, total),
            None => Seq::empty(),
        },
    ] + row.subtasks@.map_values(|j: usize| sub_line_spec(t.subtasks@[j as int], width))
}

/// The lines of the rows, in order.
pub open spec fn rows_lines(rows: Seq<TaskRow>, p: Project, width: nat) -> Seq<
    Seq<(Seq<char>, Ink)>,
>
    decreases rows.len(),
{
    if rows.len() == 0 {
        Seq::empty()
    } else {
        rows_lines(rows.drop_last(), p, width) + row_lines(rows.last(), p, width)
    }
}

/// The line shown for a section without tasks: a dim `(empty)`.
pub open spec fn empty_section_spec() -> Seq<(Seq<char>, Ink)> {
    seq![("  "@, Ink::Plain), ("(empty)"@, Ink::Dim)]
}

/// The lines of a section: its header, its tasks (or `(empty)`), and a
/// blank line.
pub open spec fn section_lines(sec: Section, p: Project, width: nat) -> Seq<
    Seq<(Seq<char>, Ink)>,
> {
    seq![status_header_spec(sec.status)] + (if sec.rows@.len() == 0 {
        seq![empty_section_spec()]
    } else {
        rows_lines(sec.rows@, p, width)
    }) + seq![Seq::<(Seq<char>, Ink)>::empty()]
}

/// The lines of the sections, in order.
pub open spec fn summary_lines(secs: Seq<Section>, p: Project, width: nat) -> Seq<
    Seq<(Seq<char>, Ink)>,
>
    decreases secs.len(),
{
    if secs.len() == 0 {
        Seq::empty()
    } else {
        summary_lines(secs.drop_last(), p, width) + section_lines(secs.last(), p, width)
    }
}

/// Appends one line.
fn push_line(out: &mut Vec<Vec<Styled>>, line: Vec<Styled>)
    ensures
        lines_view(final(out)@) == lines_view(old(out)@).push(styled_view(line@)),
{
    let ghost l = styled_view(line@);
    out.push(line);
    assert(lines_view(out@) =~= lines_view(old(out)@).push(l));
}

/// Appends the lines of one task of the list (see `row_lines`).
fn push_row_lines(out: &mut Vec<Vec<Styled>>, row: &TaskRow, project: &Project, width: usize)
    requires
        row_fits(*row, *project),
    ensures
        lines_view(final(out)@) == lines_view(old(out)@) + row_lines(*row, *project, width as nat),
{
    let t = &project.tasks[row.task];
    let mut first = fmt_task_line(t, row.is_active, width);
    let ghost line = styled_view(first@);
    if let Some((done, total)) = row.progress {
        first.push(Styled { text: "  ".to_owned(), ink: Ink::Plain });
        let mut badge = "[".to_owned();
        push_decimal(&mut badge, done as u64);
        badge.append("/");
        push_decimal(&mut badge, total as u64);
        badge.append("]");
        first.push(Styled { text: badge, ink: Ink::Cyan });
        assert(styled_view(first@) =~= line + badge_spec(done, total));
    } else {
        assert(line + Seq::<(Seq<char>, Ink)>::empty() =~= line);
    }
    push_line(out, first);
    let ghost start = lines_view(out@);
    let ghost subs = row.subtasks@.map_values(|j: usize| sub_line_spec(t.subtasks@[j as int], width as nat));
    let mut k: usize = 0;
    while k < row.subtasks.len()
        invariant
            k <= row.subtasks@.len(),
            row_fits(*row, *project),
            *t == project.tasks@[row.task as int],
            subs == row.subtasks@.map_values(|j: usize| sub_line_spec(t.subtasks@[j as int], width as nat)),
            lines_view(out@) == start + subs.take(k as int),
        decreases row.subtasks@.len() - k,
    {
        let j = row.subtasks[k];
        assert(j < t.subtasks@.len());
        push_line(out, fmt_sub_line(&t.subtasks[j], width));
        assert(subs.take(k + 1) =~= subs.take(k as int).push(subs[k as int]));
        k = k + 1;
    }
    assert(subs.take(k as int) =~= subs);
    assert(lines_view(out@) =~= lines_view(old(out)@) + row_lines(*row, *project, width as nat));
}

/// Appends the lines of one section (see `section_lines`).
fn push_section_lines(out: &mut Vec<Vec<Styled>>, sec: &Section, project: &Project, width: usize)
    requires
        forall|r: int| 0 <= r < sec.rows@.len() ==> #[trigger] row_fits(sec.rows@[r], *project),
    ensures
        lines_view(final(out)@) == lines_view(old(out)@) + section_lines(*sec, *project, width as nat),
{
    push_line(out, fmt_status_header(&sec.status));
    if sec.rows.len() == 0 {
        let mut empty: Vec<Styled> = Vec::new();
        empty.push(Styled { text: "  ".to_owned(), ink: Ink::Plain });
        empty.push(Styled { text: "(empty)".to_owned(), ink: Ink::Dim });
        assert(styled_view(empty@) =~= empty_section_spec());
        push_line(out, empty);
    } else {
        let ghost start = lines_view(out@);
        let mut r: usize = 0;
        while r < sec.rows.len()
            invariant
                r <= sec.rows@.len(),
                forall|m: int| 0 <= m < sec.rows@.len() ==> #[trigger] row_fits(sec.rows@[m], *project),
                lines_view(out@) == start + rows_lines(sec.rows@.take(r as int), *project, width as nat),
            decreases sec.rows@.len() - r,
        {
            assert(sec.rows@.take(r + 1).drop_last() =~= sec.rows@.take(r as int));
            assert(row_fits(sec.rows@[r as int], *project));
            push_row_lines(out, &sec.rows[r], project, width);
            r = r + 1;
        }
        assert(sec.rows@.take(r as int) =~= sec.rows@);
    }
    let blank: Vec<Styled> = Vec::new();
    assert(styled_view(blank@) =~= Seq::<(Seq<char>, Ink)>::empty());
    push_line(out, blank);
    assert(lines_view(out@) =~= lines_view(old(out)@) + section_lines(*sec, *project, width as nat));
}

impl TaskSummaryView {
    /// The lines of the task list of `project`, as `rtodo task ls` prints
    /// them (see `summary_lines`).
    pub fn lines(&self, project: &Project) -> (out: Vec<Vec<Styled>>)
        requires
            summary_fits(*self, *project),
        ensures
            lines_view(out@) == summary_lines(self.sections@, *project, self.width as nat),
    {
        let mut out: Vec<Vec<Styled>> = Vec::new();
        assert(lines_view(out@) =~= Seq::empty());
        let mut k: usize = 0;
        while k < self.sections.len()
            invariant
                k <= self.sections@.len(),
                summary_fits(*self, *project),
                lines_view(out@) == summary_lines(self.sections@.take(k as int), *project, self.width as nat),
            decreases self.sections@.len() - k,
        {
            assert(self.sections@.take(k + 1).drop_last() =~= self.sections@.take(k as int));
            let sec = &self.sections[k];
            assert forall|r: int| 0 <= r < sec.rows@.len() implies #[trigger] row_fits(sec.rows@[r], *project) by {
                assert(row_fits(self.sections@[k as int].rows@[r], *project));
            }
            push_section_lines(&mut out, sec, project, self.width);
            k = k + 1;
        }
        assert(self.sections@.take(k as int) =~= self.sections@);
        out
    }
}

/// The line shown when the workspace has no project.
pub open spec fn no_projects_spec() -> Seq<(Seq<char>, Ink)> {
    seq![
        ("  "@, Ink::Plain),
        ("No projects yet. Run `rtodo project add <name>` to create one."@, Ink::Dim),
    ]
}

/// The line of a project in the project list: a bold cyan `→` in front of
/// the active project (two blanks in front of the others), then id, name
/// padded to `width`, task count and date.
pub open spec fn project_list_line(p: Project, width: nat, active: bool) -> Seq<(Seq<char>, Ink)> {
    seq![
        if active {
            ("→ "@, Ink::CyanBold)
        } else {
            ("  "@, Ink::Plain)
        },
        ("["@ + decimal(p.id as nat) + "]"@, Ink::Dim),
        (" "@ + pad_spec(p.name@, width) + "  "@ + decimal(p.tasks@.len()) + " tasks  "@, Ink::Plain),
        (date_text(p.created_at), Ink::Dim),
    ]
}

/// The lines of the project list: the no-project line for an empty
/// workspace, else a line per project.
pub open spec fn project_list_lines(ps: Seq<Project>, width: nat, active: Seq<bool>) -> Seq<
    Seq<(Seq<char>, Ink)>,
> {
    if ps.len() == 0 {
        seq![no_projects_spec()]
    } else {
        Seq::new(ps.len(), |i: int| project_list_line(ps[i], width, active[i]))
    }
}

impl ProjectListView {
    /// The lines of the project list of `workspace`, as `rtodo project ls`
    /// prints them (see `project_list_lines`).
    pub fn lines(&self, workspace: &Workspace) -> (out: Vec<Vec<Styled>>)
        requires
            self.active@.len() == workspace.projects@.len(),
        ensures
            lines_view(out@) == project_list_lines(
                workspace.projects@,
                self.name_width as nat,
                self.active@,
            ),
    {
        let mut out: Vec<Vec<Styled>> = Vec::new();
        let ps = &workspace.projects;
        if ps.len() == 0 {
            let mut line: Vec<Styled> = Vec::new();
            line.push(Styled { text: "  ".to_owned(), ink: Ink::Plain });
            line.push(
                Styled {
                    text: "No projects yet. Run `rtodo project add <name>` to create one.".to_owned(),
                    ink: Ink::Dim,
                },
            );
            assert(styled_view(line@) =~= no_projects_spec());
            push_line(&mut out, line);
            assert(lines_view(out@) =~= seq![no_projects_spec()]);
            return out;
        }
        let ghost want = project_list_lines(ps@, self.name_width as nat, self.active@);
        let mut i: usize = 0;
        while i < ps.len()
            invariant
                i <= ps@.len(),
                ps@.len() > 0,
                self.active@.len() == ps@.len(),
                want == project_list_lines(ps@, self.name_width as nat, self.active@),
                lines_view(out@) == want.take(i as int),
            decreases ps@.len() - i,
        {
            let p = &ps[i];
            let mut line: Vec<Styled> = Vec::new();
            if self.active[i] {
                line.push(Styled { text: "→ ".to_owned(), ink: Ink::CyanBold });
            } else {
                line.push(Styled { text: "  ".to_owned(), ink: Ink::Plain });
            }
            line.push(fmt_id(p.id));
            let mut mid = " ".to_owned();
            mid.append(pad_right(p.name.as_str(), self.name_width).as_str());
            mid.append("  ");
            push_decimal(&mut mid, p.tasks.len() as u64);
            mid.append(" tasks  ");
            line.push(Styled { text: mid, ink: Ink::Plain });
            line.push(fmt_date(&p.created_at));
            assert(styled_view(line@) =~= project_list_line(*p, self.name_width as nat, self.active@[i as int]));
            push_line(&mut out, line);
            assert(want.take(i + 1) =~= want.take(i as int).push(want[i as int]));
            i = i + 1;
        }
        assert(want.take(i as int) =~= want);
        out
    }
}

/// The label a report leads with: the verb padded to eight characters, in
/// bold green for creations and completions, bold cyan for focus changes,
/// bold red for removals.
pub open spec fn action_label_spec(a: Action) -> (Seq<char>, Ink) {
    match a {
        Action::Added => (pad_spec("added"@, 8), Ink::GreenBold),
        Action::Active => (pad_spec("active"@, 8), Ink::CyanBold),
        Action::Removed => (pad_spec("removed"@, 8), Ink::RedBold),
        Action::Updated => (pad_spec("updated"@, 8), Ink::GreenBold),
        Action::Started => (pad_spec("started"@, 8), Ink::CyanBold),
        Action::Done => (pad_spec("done"@, 8), Ink::GreenBold),
        Action::Moved => (pad_spec("moved"@, 8), Ink::GreenBold),
    }
}

/// The label a report leads with (see `action_label_spec`).
pub fn action_label(a: Action) -> (p: Styled)
    ensures
        (p.text@, p.ink) == action_label_spec(a),
{
    match a {
        Action::Added => crate::style::action_green("added"),
        Action::Active => crate::style::action_cyan("active"),
        Action::Removed => crate::style::action_red("removed"),
        Action::Updated => crate::style::action_green("updated"),
        Action::Started => crate::style::action_cyan("started"),
        Action::Done => crate::style::action_green("done"),
        Action::Moved => crate::style::action_green("moved"),
    }
}

/// The line a project command prints, except for a listing (none): the
/// action and the project, or that no project is active any more.
pub open spec fn project_report_spec(rep: ProjectReport) -> Option<Seq<(Seq<char>, Ink)>> {
    match rep {
        ProjectReport::Listed => None,
        ProjectReport::Unset => Some(
            seq![
                ("  "@, Ink::Plain),
                (pad_spec("unset"@, 8), Ink::RedBold),
                (" no active project"@, Ink::Plain),
            ],
        ),
        ProjectReport::Changed { action, line } => Some(
            seq![("  "@, Ink::Plain), action_label_spec(action), (" "@ + line@, Ink::Plain)],
        ),
    }
}

/// The line a project command prints (see `project_report_spec`).
pub fn project_report_line(rep: &ProjectReport) -> (r: Option<Vec<Styled>>)
    ensures
        match r {
            Some(v) => project_report_spec(*rep) == Some(styled_view(v@)),
            None => project_report_spec(*rep) is None,
        },
{
    if let ProjectReport::Listed = rep {
        return None;
    }
    let mut v: Vec<Styled> = Vec::new();
    v.push(Styled { text: "  ".to_owned(), ink: Ink::Plain });
    match rep {
        ProjectReport::Listed => {},
        ProjectReport::Unset => {
            v.push(crate::style::action_red("unset"));
            v.push(Styled { text: " no active project".to_owned(), ink: Ink::Plain });
        },
        ProjectReport::Changed { action, line } => {
            v.push(action_label(*action));
            let mut rest = " ".to_owned();
            rest.append(line.as_str());
            v.push(Styled { text: rest, ink: Ink::Plain });
        },
    }
    assert(project_report_spec(*rep) == Some(styled_view(v@)));
    Some(v)
}

/// The line a task command prints, except for a listing (none): the action
/// and the task on one line, or the action and the subtask's text.
pub open spec fn task_report_spec(rep: TaskReport) -> Option<Seq<(Seq<char>, Ink)>> {
    match rep {
        TaskReport::Listed { .. } => None,
        TaskReport::Task { action, task } => Some(
            seq![("  "@, Ink::Plain), action_label_spec(action), (" "@, Ink::Plain)] + action_spec(
                task.id,
                task.description@,
                task.priority,
                task.created_at,
            ),
        ),
        TaskReport::Subtask { action, line } => Some(
            seq![("  "@, Ink::Plain), action_label_spec(action), (" subtask "@ + line@, Ink::Plain)],
        ),
    }
}

/// The line a task command prints (see `task_report_spec`).
pub fn task_report_line(rep: &TaskReport) -> (r: Option<Vec<Styled>>)
    ensures
        match r {
            Some(v) => task_report_spec(*rep) == Some(styled_view(v@)),
            None => task_report_spec(*rep) is None,
        },
{
    match rep {
        TaskReport::Listed { .. } => None,
        TaskReport::Task { action, task } => {
            let mut v: Vec<Styled> = Vec::new();
            v.push(Styled { text: "  ".to_owned(), ink: Ink::Plain });
            v.push(action_label(*action));
            v.push(Styled { text: " ".to_owned(), ink: Ink::Plain });
            let ghost head = styled_view(v@);
            let item = fmt_action_item(
                task.id,
                task.description.as_str(),
                task.priority,
                &task.created_at,
            );
            let ghost tail = styled_view(item@);
            let mut item = item;
            v.append(&mut item);
            assert(styled_view(v@) =~= head + tail);
            assert(task_report_spec(*rep) == Some(styled_view(v@)));
            Some(v)
        },
        TaskReport::Subtask { action, line } => {
            let mut v: Vec<Styled> = Vec::new();
            v.push(Styled { text: "  ".to_owned(), ink: Ink::Plain });
            v.push(action_label(*action));
            let mut rest = " subtask ".to_owned();
            rest.append(line.as_str());
            v.push(Styled { text: rest, ink: Ink::Plain });
            assert(task_report_spec(*rep) == Some(styled_view(v@)));
            Some(v)
        },
    }
}

} // verus!
