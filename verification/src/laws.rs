//! Properties of the library that span several operations.

use vstd::prelude::*;

use crate::models::priority::Priority;
use crate::models::project::{
    first_task_at, has_task, keep, lemma_task_id_bound, task_added, task_deleted, task_id_bound,
    tasks_by_priority, active_lookup, Project,
};
use crate::error::AppError;
use crate::models::status::Status;
use crate::models::subtask::Subtask;
use crate::models::task::{
    derived_status, done_count, first_subtask_at, lemma_done_count_bound, lemma_first_subtask_unique,
    subtask_marked, subtask_replaced, Task,
};
use crate::tui::app::{App, AppState, Key, TreeRowId};
use crate::tui::apply::{
    applied, applied_one, collapsed_or_ascended, expanded_or_descended, has_subtasks,
};
use crate::tui::draft::InsertTarget;
use crate::tui::effect::Effect;
use crate::tui::intent::{keymap_spec, Intent, NavIntent};
use crate::tui::overlay::Overlay;
use crate::tui::resolve::resolved;
use crate::tui::tree::{flatten_spec, row_ids, rows_of_task, tree_rows};
use crate::workspace::{active_project_at, first_project_at, Workspace};
use crate::style::pad_spec;
use crate::text::{decimal, lemma_decimal_digits};
use crate::tui::app::ProjectFocus;
use crate::tui::render::{row_pieces, status_piece_spec, task_at};
use crate::tui::tree::{RowKind, TreeRow};
use crate::ui::{in_section, listed_statuses, positions, project_list_line, section_rows, section_shows, Section};

verus! {

/// A task's status after its subtasks change follows them while it has
/// any: `Completed` exactly when all are done, `New` exactly when none is,
/// and `InProgress` otherwise; without subtasks it stays as it was.
pub proof fn law_status_follows_subtasks(subs: Seq<Subtask>, current: Status)
    ensures
        subs.len() == 0 ==> derived_status(subs, current) == current,
        subs.len() > 0 ==> {
            &&& (derived_status(subs, current) == Status::Completed) == (done_count(subs)
                == subs.len())
            &&& (derived_status(subs, current) == Status::New) == (done_count(subs) == 0)
            &&& (derived_status(subs, current) == Status::InProgress) == (0 < done_count(subs)
                < subs.len())
        },
{
    lemma_done_count_bound(subs);
}

/// Marking a subtask not done undoes marking it done: when a subtask that
/// was not done is completed and then uncompleted, the task's subtasks,
/// header and next subtask id are what they were.
pub proof fn law_uncomplete_undoes_complete(a: Task, b: Task, c: Task, sid: u32)
    requires
        subtask_marked(a, b, sid, true),
        subtask_marked(b, c, sid, false),
        forall|i: int| first_subtask_at(a.subtasks@, sid, i) ==> !a.subtasks@[i].completed,
    ensures
        c.subtasks@ == a.subtasks@,
        c.same_header(a),
        c.next_subtask_id == a.next_subtask_id,
{
    let i = choose|i: int|
        first_subtask_at(a.subtasks@, sid, i) && subtask_replaced(
            a,
            b,
            i,
            Subtask { completed: true, ..a.subtasks@[i] },
            true,
        );
    let j = choose|j: int|
        first_subtask_at(b.subtasks@, sid, j) && subtask_replaced(
            b,
            c,
            j,
            Subtask { completed: false, ..b.subtasks@[j] },
            true,
        );
    assert(first_subtask_at(b.subtasks@, sid, i)) by {
        assert forall|m: int| 0 <= m < i implies b.subtasks@[m].id != sid by {
            assert(b.subtasks@[m] == a.subtasks@[m]);
        }
    }
    lemma_first_subtask_unique(b.subtasks@, sid, i);
    assert(c.subtasks@ =~= a.subtasks@);
}

/// A task just added is found again under the id it was given: that id was
/// free before, the new task is the first (and only) one holding it, and the
/// project keeps its invariant.
pub proof fn law_added_task_is_found(old: Project, new: Project, d: String, p: Priority, t: Task)
    requires
        old.wf(),
        task_added(old, new, d, p, t),
    ensures
        !has_task(old.tasks@, t.id),
        first_task_at(new.tasks@, t.id, old.tasks@.len() as int),
        new.wf(),
{
    lemma_task_id_bound(old.tasks@);
    let n = old.tasks@.len() as int;
    assert forall|j: int| 0 <= j < n implies new.tasks@[j].id != t.id by {
        assert(new.tasks@[j] == new.tasks@.drop_last()[j]);
        assert(old.tasks@[j].id < task_id_bound(old.tasks@));
    }
    assert forall|i: int| 0 <= i < new.tasks@.len() implies #[trigger] new.tasks@[i].wf() by {
        if i < n {
            assert(new.tasks@[i] == old.tasks@[i]);
        }
    }
    assert forall|i: int, j: int|
        0 <= i < j < new.tasks@.len() implies #[trigger] new.tasks@[i].id != #[trigger] new.tasks@[j].id by {
        if j < n {
            assert(new.tasks@[i] == old.tasks@[i]);
            assert(new.tasks@[j] == old.tasks@[j]);
        } else {
            assert(new.tasks@[i] == old.tasks@[i]);
        }
    }
}

/// A deleted task is gone: no task of the project holds its id any more,
/// and there is one task less.
pub proof fn law_deleted_task_is_gone(old: Project, new: Project, id: u32, t: Task)
    requires
        old.wf(),
        task_deleted(old, new, id, Ok(t)),
    ensures
        !has_task(new.tasks@, id),
        new.tasks@.len() == old.tasks@.len() - 1,
        t.id == id,
{
    let i = choose|i: int|
        {
            &&& first_task_at(old.tasks@, id, i)
            &&& t == old.tasks@[i]
            &&& new.tasks@ == old.tasks@.update(i, old.tasks@.last()).drop_last()
            &&& new.same_header(old)
            &&& new.active_task_id == (if old.active_task_id == Some(id) {
                None
            } else {
                old.active_task_id
            })
        };
    let n = old.tasks@.len() as int;
    assert forall|j: int| 0 <= j < new.tasks@.len() implies new.tasks@[j].id != id by {
        if j == i {
            assert(new.tasks@[j] == old.tasks@[n - 1]);
            assert(old.tasks@[i].id != old.tasks@[n - 1].id || i == n - 1);
        } else {
            assert(new.tasks@[j] == old.tasks@[j]);
            assert(old.tasks@[i].id != old.tasks@[j].id);
        }
    }
}

/// After a task is made active (put in progress, its id recorded), asking
/// for the active task gives it back.
pub proof fn law_activated_task_is_active(old: Project, new: Project, id: u32, i: int)
    requires
        first_task_at(old.tasks@, id, i),
        new.tasks@ == old.tasks@.update(i, old.tasks@[i].with_status(Status::InProgress)),
        new.active_task_id == Some(id),
    ensures
        active_lookup(new, Ok(new.tasks@[i])),
        new.tasks@[i].status == Status::InProgress,
{
    assert(first_task_at(new.tasks@, id, i)) by {
        assert forall|j: int| 0 <= j < i implies new.tasks@[j].id != id by {
            assert(new.tasks@[j] == old.tasks@[j]);
        }
    }
    crate::models::project::lemma_first_task_unique(new.tasks@, id, i);
}

/// Every element kept by `keep` satisfies the predicate, and keeps its
/// relative order.
pub proof fn law_keep_satisfies<A>(s: Seq<A>, p: spec_fn(A) -> bool)
    ensures
        forall|i: int| 0 <= i < keep(s, p).len() ==> p(#[trigger] keep(s, p)[i]),
        keep(s, p).len() <= s.len(),
    decreases s.len(),
{
    if s.len() > 0 {
        law_keep_satisfies(s.drop_last(), p);
        let k = keep(s, p);
        if p(s.last()) {
            assert forall|i: int| 0 <= i < k.len() implies p(#[trigger] k[i]) by {
                if i < k.len() - 1 {
                    assert(k[i] == keep(s.drop_last(), p)[i]);
                }
            }
        }
    }
}

/// The rank of a priority: high first.
pub open spec fn priority_rank(p: Priority) -> int {
    match p {
        Priority::High => 2,
        Priority::Medium => 1,
        Priority::Low => 0,
    }
}

/// The tasks listed for a status all have that status, and come highest
/// priority first.
pub proof fn law_listing_is_sorted(tasks: Seq<Task>, s: Status)
    ensures
        forall|i: int|
            0 <= i < tasks_by_priority(tasks, s).len() ==> (#[trigger] tasks_by_priority(tasks, s)[i]).status == s,
        forall|i: int, j: int|
            0 <= i < j < tasks_by_priority(tasks, s).len() ==> priority_rank(
                #[trigger] tasks_by_priority(tasks, s)[i].priority,
            ) >= priority_rank(#[trigger] tasks_by_priority(tasks, s)[j].priority),
{
    let in_status = keep(tasks, |t: Task| t.status == s);
    let hp = |t: Task| t.priority == Priority::High;
    let mp = |t: Task| t.priority == Priority::Medium;
    let lp = |t: Task| t.priority == Priority::Low;
    law_keep_satisfies(tasks, |t: Task| t.status == s);
    law_keep_satisfies(in_status, hp);
    law_keep_satisfies(in_status, mp);
    law_keep_satisfies(in_status, lp);
    let h = keep(in_status, hp);
    let m = keep(in_status, mp);
    let l = keep(in_status, lp);
    lemma_keep_member(in_status, hp);
    lemma_keep_member(in_status, mp);
    lemma_keep_member(in_status, lp);
    let all = tasks_by_priority(tasks, s);
    assert(all == h + m + l);
    assert forall|i: int| 0 <= i < all.len() implies (#[trigger] all[i]).status == s && (i < h.len()
        ==> all[i].priority == Priority::High) && (h.len() <= i < h.len() + m.len()
        ==> all[i].priority == Priority::Medium) && (h.len() + m.len() <= i
        ==> all[i].priority == Priority::Low) by {
        if i < h.len() {
            assert(all[i] == h[i]);
            assert(hp(h[i]));
        } else if i < h.len() + m.len() {
            assert(all[i] == m[i - h.len()]);
            assert(mp(m[i - h.len()]));
        } else {
            assert(all[i] == l[i - h.len() - m.len()]);
            assert(lp(l[i - h.len() - m.len()]));
        }
    }
}

/// Every element kept by `keep` is an element of the sequence.
proof fn lemma_keep_member<A>(s: Seq<A>, p: spec_fn(A) -> bool)
    ensures
        forall|i: int| 0 <= i < keep(s, p).len() ==> s.contains(#[trigger] keep(s, p)[i]),
    decreases s.len(),
{
    if s.len() > 0 {
        lemma_keep_member(s.drop_last(), p);
        let k = keep(s, p);
        assert forall|i: int| 0 <= i < k.len() implies s.contains(#[trigger] k[i]) by {
            if p(s.last()) && i == k.len() - 1 {
                assert(s[s.len() - 1] == k[i]);
            } else {
                assert(k[i] == keep(s.drop_last(), p)[i]);
                let j = choose|j: int| 0 <= j < s.drop_last().len() && s.drop_last()[j] == k[i];
                assert(s[j] == k[i]);
            }
        }
    }
}

/// After a project is made active, the workspace's active project is that
/// project.
pub proof fn law_selected_project_is_active(old: Workspace, new: Workspace, id: u32, i: int)
    requires
        first_project_at(old.projects@, id, i),
        new.projects@ == old.projects@,
        new.active_project_id == Some(id),
    ensures
        active_project_at(new, i),
{
}

/// `Tab` twice comes back to the pane it started from, with nothing else
/// changed but the error cleared.
pub proof fn law_tab_twice_returns(
    s0: AppState,
    s1: AppState,
    s2: AppState,
    r1: Result<bool, AppError>,
    r2: Result<bool, AppError>,
)
    requires
        applied(s0, s1, Effect::NextFocus, r1),
        applied(s1, s2, Effect::NextFocus, r2),
    ensures
        s2 == (AppState { error: None, ..s0 }),
        r1 == Ok::<bool, AppError>(false) && r2 == Ok::<bool, AppError>(false),
{
}

/// Backspace undoes a typed character: pushing a character on the draft and
/// popping it gives the draft back.
pub proof fn law_pop_undoes_push(
    s0: AppState,
    s1: AppState,
    s2: AppState,
    c: char,
    r1: Result<bool, AppError>,
    r2: Result<bool, AppError>,
)
    requires
        s0.draft is Some,
        applied(s0, s1, Effect::DraftPush(c), r1),
        applied(s1, s2, Effect::DraftPop, r2),
    ensures
        s2 == (AppState { error: None, ..s0 }),
{
    let (text, t) = s0.draft->0;
    assert(text.push(c).drop_last() =~= text);
}

/// `Esc` right after starting an insert leaves the interface as it was
/// (but for the error, which every action clears).
pub proof fn law_cancel_undoes_insert(
    s0: AppState,
    s1: AppState,
    s2: AppState,
    target: InsertTarget,
    r1: Result<bool, AppError>,
    r2: Result<bool, AppError>,
)
    requires
        s0.draft is None,
        applied(s0, s1, Effect::EnterInsert(target), r1),
        applied(s1, s2, Effect::CancelInsert, r2),
    ensures
        s2 == (AppState { error: None, ..s0 }),
{
}

/// `h` undoes `l` on a collapsed task with subtasks: expanding it and
/// collapsing it again leaves the interface as it was (but for the error).
pub proof fn law_collapse_undoes_expand(
    s0: AppState,
    s1: AppState,
    s2: AppState,
    tid: u32,
    r1: Result<bool, AppError>,
    r2: Result<bool, AppError>,
)
    requires
        s0.cursor == Some(TreeRowId::Task(tid)),
        s0.p_idx matches Some(i) && has_subtasks(s0.projects[i as int], tid),
        !s0.expanded.contains(tid),
        applied(s0, s1, Effect::TreeExpandOrDescend, r1),
        applied(s1, s2, Effect::TreeCollapseOrAscend, r2),
    ensures
        s2 == (AppState { error: None, ..s0 }),
{
    assert(s0.expanded.insert(tid).remove(tid) =~= s0.expanded);
}

/// While the confirm overlay is open, every key answers it: the key means
/// yes or no, and what it does ends by closing the overlay.
pub proof fn law_overlay_answers_every_key(app: App, key: Key, effects: Seq<Effect>)
    requires
        app.overlay is Some,
        resolved(
            app,
            keymap_spec(true, app.screen.mode is Insert, app.screen.focus, app.last_key, key)->0,
            effects,
        ),
    ensures
        keymap_spec(true, app.screen.mode is Insert, app.screen.focus, app.last_key, key) matches Some(
            Intent::Confirm(_),
        ),
        effects.len() > 0 && effects.last() == Effect::CloseOverlay,
{
}

/// Every task has a row in the tree, whatever is expanded: the cursor on a
/// task survives expanding and collapsing.
pub proof fn law_every_task_has_a_row(p: Project, expanded: Set<u32>, i: int)
    requires
        0 <= i < p.tasks@.len(),
    ensures
        row_ids(flatten_spec(p, expanded)).contains(TreeRowId::Task(p.tasks@[i].id)),
{
    lemma_task_row_in_prefix(p.tasks@, expanded, i, p.tasks@.len());
}

/// The row of task `i` is among the rows of the first `n` tasks when `i < n`.
proof fn lemma_task_row_in_prefix(tasks: Seq<Task>, expanded: Set<u32>, i: int, n: nat)
    requires
        0 <= i < n <= tasks.len(),
    ensures
        row_ids(tree_rows(tasks, n, expanded)).contains(TreeRowId::Task(tasks[i].id)),
    decreases n,
{
    let rows = tree_rows(tasks, n, expanded);
    let before = tree_rows(tasks, (n - 1) as nat, expanded);
    let own = rows_of_task(tasks[n - 1], n == tasks.len(), expanded);
    assert(rows == before + own);
    if i < n - 1 {
        lemma_task_row_in_prefix(tasks, expanded, i, (n - 1) as nat);
        let k = choose|k: int| 0 <= k < row_ids(before).len() && row_ids(before)[k] == TreeRowId::Task(tasks[i].id);
        assert(row_ids(rows)[k] == row_ids(before)[k]);
    } else {
        assert(row_ids(rows)[before.len() as int] == own[0].id);
    }
}

/// Saving cannot be forgotten: an effect whose result does not ask for a
/// save (an error, or `Ok(false)`) leaves the workspace's projects and its
/// active project as they were.
pub proof fn law_unsaved_effects_keep_the_workspace(
    o: AppState,
    n: AppState,
    e: Effect,
    r: Result<bool, AppError>,
)
    requires
        applied(o, n, e, r),
        r != Ok::<bool, AppError>(true),
    ensures
        n.projects == o.projects,
        n.active_project_id == o.active_project_id,
{
    match (e, o.overlay) {
        (Effect::ConfirmYes, Some(Overlay::Confirm(c))) => {
            lemma_unsaved_one(AppState { overlay: None, error: None, ..o }, n, *c.on_confirm, r);
        },
        _ => {
            lemma_unsaved_one(o, n, e, r);
        },
    }
}

/// `law_unsaved_effects_keep_the_workspace` for a single effect.
proof fn lemma_unsaved_one(o: AppState, n: AppState, e: Effect, r: Result<bool, AppError>)
    requires
        applied_one(o, n, e, r),
        r != Ok::<bool, AppError>(true),
    ensures
        n.projects == o.projects,
        n.active_project_id == o.active_project_id,
{
    let c = AppState { error: None, ..o };
    match e {
        Effect::TreeExpandOrDescend => {
            assert(n == expanded_or_descended(c));
        },
        Effect::TreeCollapseOrAscend => {
            assert(n == collapsed_or_ascended(c));
        },
        Effect::ToggleStatus(row) => {
            if let (Some(i), TreeRowId::Task(tid)) = (o.p_idx, row) {
                let tasks = c.projects[i as int].tasks@;
                if has_task(tasks, tid) {
                    lemma_first_task_exists(tasks, tid);
                    let k = choose|k: int| first_task_at(tasks, tid, k);
                    assert(first_task_at(tasks, tid, k));
                }
            }
        },
        _ => {},
    }
}

/// When a task holds an id, some position is the first to hold it.
proof fn lemma_first_task_exists(tasks: Seq<Task>, id: u32)
    requires
        has_task(tasks, id),
    ensures
        exists|k: int| first_task_at(tasks, id, k),
    decreases tasks.len(),
{
    let j = choose|j: int| 0 <= j < tasks.len() && tasks[j].id == id;
    if has_task(tasks.drop_last(), id) {
        lemma_first_task_exists(tasks.drop_last(), id);
        let k = choose|k: int| first_task_at(tasks.drop_last(), id, k);
        assert(tasks.drop_last()[k] == tasks[k]);
        assert forall|m: int| 0 <= m < k implies tasks[m].id != id by {
            assert(tasks.drop_last()[m] == tasks[m]);
        }
        assert(first_task_at(tasks, id, k));
    } else {
        assert forall|m: int| 0 <= m < tasks.len() - 1 implies tasks[m].id != id by {
            assert(tasks.drop_last()[m] == tasks[m]);
        }
        assert(j == tasks.len() - 1);
        assert(first_task_at(tasks, id, j));
    }
}

/// `y` on the confirm popup runs the effect it holds: with the popup open,
/// `ConfirmYes` does what that effect does after the popup is closed and
/// the error cleared; with no popup, it only clears the error.
pub proof fn law_confirm_runs_the_held_effect(
    o: AppState,
    n: AppState,
    r: Result<bool, AppError>,
)
    requires
        applied(o, n, Effect::ConfirmYes, r),
    ensures
        o.overlay matches Some(Overlay::Confirm(c)) ==> applied_one(
            AppState { overlay: None, error: None, ..o },
            n,
            *c.on_confirm,
            r,
        ),
        o.overlay is None ==> n == (AppState { error: None, ..o }) && r == Ok::<bool, AppError>(
            false,
        ),
{
}

/// In every section of the task list, a task of higher priority comes
/// before a task of lower priority, tasks of equal priority keep their
/// order in the project, and every row is a task of the project listed in
/// that section.
pub proof fn law_task_list_sorted_by_priority(sec: Section, p: Project, status: Status, filtered: bool)
    requires
        section_shows(sec, p, status, filtered),
        p.tasks@.len() <= usize::MAX,
    ensures
        forall|r: int|
            0 <= r < sec.rows@.len() ==> (#[trigger] sec.rows@[r]).task < p.tasks@.len()
                && in_section(p.tasks@[sec.rows@[r].task as int], status, filtered),
        forall|r1: int, r2: int|
            0 <= r1 < r2 < sec.rows@.len() ==> {
                let t1 = p.tasks@[(#[trigger] sec.rows@[r1]).task as int];
                let t2 = p.tasks@[(#[trigger] sec.rows@[r2]).task as int];
                &&& priority_rank(t1.priority) >= priority_rank(t2.priority)
                &&& t1.priority == t2.priority ==> sec.rows@[r1].task < sec.rows@[r2].task
            },
{
    let tasks = p.tasks@;
    let n = tasks.len();
    let all = positions(n);
    let ph = |i: usize| in_section(tasks[i as int], status, filtered) && tasks[i as int].priority == Priority::High;
    let pm = |i: usize| in_section(tasks[i as int], status, filtered) && tasks[i as int].priority == Priority::Medium;
    let pl = |i: usize| in_section(tasks[i as int], status, filtered) && tasks[i as int].priority == Priority::Low;
    let h = keep(all, ph);
    let m = keep(all, pm);
    let l = keep(all, pl);
    let rows = section_rows(tasks, status, filtered);
    assert(rows == h + m + l);
    assert forall|i: int, j: int| 0 <= i < j < all.len() implies all[i] < all[j] by {}
    assert forall|i: int| 0 <= i < all.len() implies all[i] < n by {}
    law_keep_satisfies(all, ph);
    law_keep_satisfies(all, pm);
    law_keep_satisfies(all, pl);
    lemma_keep_increasing(all, ph, n);
    lemma_keep_increasing(all, pm, n);
    lemma_keep_increasing(all, pl, n);
    assert forall|r: int| 0 <= r < rows.len() implies rows[r] < n && in_section(tasks[rows[r] as int], status, filtered)
        && (r < h.len() ==> tasks[rows[r] as int].priority == Priority::High)
        && (h.len() <= r < h.len() + m.len() ==> tasks[rows[r] as int].priority == Priority::Medium)
        && (h.len() + m.len() <= r ==> tasks[rows[r] as int].priority == Priority::Low) by {
        if r < h.len() {
            assert(rows[r] == h[r]);
            assert(ph(h[r]));
        } else if r < h.len() + m.len() {
            assert(rows[r] == m[r - h.len()]);
            assert(pm(m[r - h.len()]));
        } else {
            assert(rows[r] == l[r - h.len() - m.len()]);
            assert(pl(l[r - h.len() - m.len()]));
        }
    }
    assert forall|r1: int, r2: int|
        0 <= r1 < r2 < rows.len() && tasks[rows[r1] as int].priority == tasks[rows[r2] as int].priority
        implies rows[r1] < rows[r2] by {
        if r2 < h.len() {
            assert(rows[r1] == h[r1] && rows[r2] == h[r2]);
        } else if r2 < h.len() + m.len() {
            if r1 >= h.len() {
                assert(rows[r1] == m[r1 - h.len()] && rows[r2] == m[r2 - h.len()]);
            }
        } else {
            if r1 >= h.len() + m.len() {
                assert(rows[r1] == l[r1 - h.len() - m.len()] && rows[r2] == l[r2 - h.len() - m.len()]);
            }
        }
    }
    assert forall|r: int| 0 <= r < sec.rows@.len() implies (#[trigger] sec.rows@[r]).task == rows[r] by {
        assert(crate::ui::row_shows(sec.rows@[r], p, rows[r], status, filtered));
    }
}

/// Keeping elements of a strictly increasing sequence of numbers below `n`
/// gives a strictly increasing sequence of numbers below `n`.
proof fn lemma_keep_increasing(s: Seq<usize>, p: spec_fn(usize) -> bool, n: nat)
    requires
        forall|i: int, j: int| 0 <= i < j < s.len() ==> s[i] < s[j],
        forall|i: int| 0 <= i < s.len() ==> s[i] < n,
    ensures
        forall|i: int, j: int| 0 <= i < j < keep(s, p).len() ==> keep(s, p)[i] < keep(s, p)[j],
        forall|i: int| 0 <= i < keep(s, p).len() ==> keep(s, p)[i] < n,
    decreases s.len(),
{
    if s.len() > 0 {
        let d = s.drop_last();
        lemma_keep_increasing(d, p, n);
        lemma_keep_member(d, p);
        let k = keep(s, p);
        let kd = keep(d, p);
        assert forall|i: int| 0 <= i < kd.len() implies kd[i] < s.last() by {
            let j = choose|j: int| 0 <= j < d.len() && d[j] == kd[i];
            assert(s[j] == d[j]);
        }
        if p(s.last()) {
            assert forall|i: int, j: int| 0 <= i < j < k.len() implies k[i] < k[j] by {
                assert(k[i] == kd[i]);
                if j < kd.len() {
                    assert(k[j] == kd[j]);
                }
            }
            assert forall|i: int| 0 <= i < k.len() implies k[i] < n by {
                if i < kd.len() {
                    assert(k[i] == kd[i]);
                }
            }
        }
    }
}

/// The project list counts every task of a project, whatever its status:
/// the count shown is the number of tasks, two projects that differ only
/// in their tasks' contents show the same line, and two that differ in
/// how many tasks they hold show different lines.
pub proof fn law_project_line_counts_all_tasks(p: Project, q: Project, width: nat, active: bool)
    ensures
        project_list_line(p, width, active)[2].0 == " "@ + pad_spec(p.name@, width) + "  "@ + decimal(
            p.tasks@.len(),
        ) + " tasks  "@,
        p.id == q.id && p.name == q.name && p.created_at == q.created_at && p.tasks@.len()
            == q.tasks@.len() ==> project_list_line(p, width, active) == project_list_line(
            q,
            width,
            active,
        ),
        p.id == q.id && p.name == q.name && p.created_at == q.created_at && p.tasks@.len()
            != q.tasks@.len() ==> project_list_line(p, width, active) != project_list_line(
            q,
            width,
            active,
        ),
{
    if p.id == q.id && p.name == q.name && p.created_at == q.created_at && p.tasks@.len()
        != q.tasks@.len() && project_list_line(p, width, active) == project_list_line(q, width, active) {
        let x = " "@ + pad_spec(p.name@, width) + "  "@;
        let dp = decimal(p.tasks@.len());
        let dq = decimal(q.tasks@.len());
        let a = x + dp + " tasks  "@;
        let b = x + dq + " tasks  "@;
        assert(a == project_list_line(p, width, active)[2].0);
        assert(b == project_list_line(q, width, active)[2].0);
        assert(a == b);
        assert(dp.len() == dq.len()) by {
            reveal_strlit(" tasks  ");
        }
        assert(a.subrange(x.len() as int, (x.len() + dp.len()) as int) =~= dp);
        assert(b.subrange(x.len() as int, (x.len() + dq.len()) as int) =~= dq);
        lemma_decimal_digits(p.tasks@.len());
        lemma_decimal_digits(q.tasks@.len());
        assert(false);
    }
}

/// A task's row in the tree names its status, and different statuses get
/// different names: `New`, `WIP`, and `Done` for a completed task.
pub proof fn law_status_piece_names_the_status(s1: Status, s2: Status)
    ensures
        (status_piece_spec(s1).0 == status_piece_spec(s2).0) == (s1 == s2),
        status_piece_spec(Status::Completed).0 == "Done"@,
        status_piece_spec(Status::New).0 == "New"@,
        status_piece_spec(Status::InProgress).0 == "WIP"@,
{
    reveal_strlit("New");
    reveal_strlit("WIP");
    reveal_strlit("Done");
    if s1 != s2 {
        let a = status_piece_spec(s1).0;
        let b = status_piece_spec(s2).0;
        assert(a.len() != b.len() || a[0] != b[0]);
    }
}

/// The row of a task in the tree shows the task's own status and
/// description.
pub proof fn law_task_row_shows_its_task(row: TreeRow, p: Project, tid: u32)
    requires
        row.id == TreeRowId::Task(tid),
        row.kind is Leaf || row.kind is Parent,
        has_task(p.tasks@, tid),
    ensures
        row_pieces(row, p)[1] == status_piece_spec(task_at(p, tid).status),
        row_pieces(row, p)[4].0 == " "@ + task_at(p, tid).description@,
{
}

/// Outside the popup and insert mode, the arrow keys mean what the letters
/// do: down and `j` move down, up and `k` move up, right and `l` go right,
/// left and `h` go left, in either pane.
pub proof fn law_arrows_mean_letters(focus: ProjectFocus, last: Option<Key>)
    ensures
        keymap_spec(false, false, focus, last, Key::Down) == keymap_spec(false, false, focus, last, Key::Char('j')),
        keymap_spec(false, false, focus, last, Key::Down) == Some(Intent::Nav(NavIntent::Down)),
        keymap_spec(false, false, focus, last, Key::Up) == keymap_spec(false, false, focus, last, Key::Char('k')),
        keymap_spec(false, false, focus, last, Key::Up) == Some(Intent::Nav(NavIntent::Up)),
        keymap_spec(false, false, focus, last, Key::Right) == keymap_spec(false, false, focus, last, Key::Char('l')),
        keymap_spec(false, false, focus, last, Key::Right) == Some(Intent::Nav(NavIntent::Right)),
        keymap_spec(false, false, focus, last, Key::Left) == keymap_spec(false, false, focus, last, Key::Char('h')),
        keymap_spec(false, false, focus, last, Key::Left) == Some(Intent::Nav(NavIntent::Left)),
{
}

/// `j` in the sidebar moves the selection down by exactly one project,
/// stopping at the last one, and `k` moves it up by exactly one, stopping
/// at the first; so `k` right after a `j` that moved comes back.
pub proof fn law_sidebar_moves_one_row(
    s0: AppState,
    s1: AppState,
    s2: AppState,
    r1: Result<bool, AppError>,
    r2: Result<bool, AppError>,
)
    requires
        applied(s0, s1, Effect::SelectNextProject, r1),
        applied(s1, s2, Effect::SelectPrevProject, r2),
        s0.projects.len() <= usize::MAX,
    ensures
        s0.sidebar_cursor + 1 < s0.projects.len() ==> s1.sidebar_cursor == s0.sidebar_cursor + 1,
        s0.projects.len() > 0 && s0.sidebar_cursor + 1 >= s0.projects.len() ==> s1.sidebar_cursor
            == s0.projects.len() - 1,
        s0.projects.len() == 0 ==> s1.sidebar_cursor == s0.sidebar_cursor,
        s1.sidebar_cursor > 0 ==> s2.sidebar_cursor == s1.sidebar_cursor - 1,
        s1.sidebar_cursor == 0 ==> s2.sidebar_cursor == 0,
        s0.sidebar_cursor + 1 < s0.projects.len() ==> s2.sidebar_cursor == s0.sidebar_cursor,
{
    assert(applied_one(s0, s1, Effect::SelectNextProject, r1));
    assert(applied_one(s1, s2, Effect::SelectPrevProject, r2));
}

/// Without a filter the task list shows every status exactly once: in
/// progress first, then new, then completed.
pub proof fn law_unfiltered_list_shows_each_status_once(s: Status)
    ensures
        listed_statuses(None).len() == 3,
        listed_statuses(None)[0] == Status::InProgress,
        listed_statuses(None)[1] == Status::New,
        listed_statuses(None)[2] == Status::Completed,
        exists|k: int| 0 <= k < 3 && #[trigger] listed_statuses(None)[k] == s,
        forall|k1: int, k2: int|
            0 <= k1 < k2 < 3 ==> #[trigger] listed_statuses(None)[k1] != #[trigger] listed_statuses(None)[k2],
{
    match s {
        Status::InProgress => assert(listed_statuses(None)[0] == s),
        Status::New => assert(listed_statuses(None)[1] == s),
        Status::Completed => assert(listed_statuses(None)[2] == s),
    }
}

} // verus!
