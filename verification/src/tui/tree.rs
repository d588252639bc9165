//! The task tree of the open project as a flat list of rows.

use std::collections::HashSet;
use vstd::prelude::*;

use crate::models::project::Project;
use crate::models::task::Task;
use crate::tui::app::TreeRowId;

verus! {

broadcast use vstd::std_specs::hash::group_hash_axioms;

/// One row of the tree.
#[derive(Debug)]
pub struct TreeRow {
    pub id: TreeRowId,
    /// Nesting level: 0 for tasks, 1 for subtasks.
    pub depth: u8,
    /// Whether it is the last row among its siblings.
    pub last_in_group: bool,
    pub kind: RowKind,
}

/// What a row shows.
#[derive(Debug)]
pub enum RowKind {
    /// A task with no subtasks.
    Leaf,
    /// A task with subtasks, shown or not.
    Parent { expanded: bool },
    /// A subtask.
    Subtask,
    /// The draft being typed, shown in place.
    Drafting { text: String },
}

/// The row of task `t`, the last of its group when `last`.
pub open spec fn task_row_spec(t: Task, last: bool, expanded: Set<u32>) -> TreeRow {
    TreeRow {
        id: TreeRowId::Task(t.id),
        depth: 0,
        last_in_group: last,
        kind: if t.subtasks@.len() > 0 {
            RowKind::Parent { expanded: expanded.contains(t.id) }
        } else {
            RowKind::Leaf
        },
    }
}

/// The rows of the first `j` subtasks of `t`.
pub open spec fn subtask_rows(t: Task, j: nat) -> Seq<TreeRow>
    decreases j,
{
    if j == 0 || j > t.subtasks@.len() {
        Seq::empty()
    } else {
        subtask_rows(t, (j - 1) as nat).push(
            TreeRow {
                id: TreeRowId::Subtask { task: t.id, sub: t.subtasks@[j - 1].id },
                depth: 1,
                last_in_group: j == t.subtasks@.len(),
                kind: RowKind::Subtask,
            },
        )
    }
}

/// The rows of task `t`: its own row, followed by its subtasks' rows when it
/// has subtasks and is expanded.
pub open spec fn rows_of_task(t: Task, last: bool, expanded: Set<u32>) -> Seq<TreeRow> {
    seq![task_row_spec(t, last, expanded)] + if t.subtasks@.len() > 0 && expanded.contains(t.id) {
        subtask_rows(t, t.subtasks@.len())
    } else {
        Seq::empty()
    }
}

/// The rows of the first `i` tasks of `tasks`.
pub open spec fn tree_rows(tasks: Seq<Task>, i: nat, expanded: Set<u32>) -> Seq<TreeRow>
    decreases i,
{
    if i == 0 || i > tasks.len() {
        Seq::empty()
    } else {
        tree_rows(tasks, (i - 1) as nat, expanded) + rows_of_task(
            tasks[i - 1],
            i == tasks.len(),
            expanded,
        )
    }
}

/// The rows of the whole tree of a project.
pub open spec fn flatten_spec(p: Project, expanded: Set<u32>) -> Seq<TreeRow> {
    tree_rows(p.tasks@, p.tasks@.len(), expanded)
}

/// The ids of `rows`, in order.
pub open spec fn row_ids(rows: Seq<TreeRow>) -> Seq<TreeRowId> {
    rows.map_values(|r: TreeRow| r.id)
}

/// The first position of `id` among `ids`, if any.
pub open spec fn index_of(ids: Seq<TreeRowId>, id: TreeRowId) -> Option<usize>
    decreases ids.len(),
{
    if ids.len() == 0 {
        None
    } else {
        match index_of(ids.drop_last(), id) {
            Some(i) => Some(i),
            None => if ids.last() == id {
                Some((ids.len() - 1) as usize)
            } else {
                None
            },
        }
    }
}

/// Whether `a` is the same row as `b`: same fields, with `Drafting` rows
/// compared by their text.
pub open spec fn same_row(a: TreeRow, b: TreeRow) -> bool {
    &&& a.id == b.id
    &&& a.depth == b.depth
    &&& a.last_in_group == b.last_in_group
    &&& match (a.kind, b.kind) {
        (RowKind::Leaf, RowKind::Leaf) => true,
        (RowKind::Parent { expanded: x }, RowKind::Parent { expanded: y }) => x == y,
        (RowKind::Subtask, RowKind::Subtask) => true,
        (RowKind::Drafting { text: x }, RowKind::Drafting { text: y }) => x@ == y@,
        _ => false,
    }
}

/// Whether the rows `a` are the rows `b`.
pub open spec fn same_rows(a: Seq<TreeRow>, b: Seq<TreeRow>) -> bool {
    &&& a.len() == b.len()
    &&& forall|i: int| 0 <= i < a.len() ==> same_row(#[trigger] a[i], b[i])
}

/// Whether `id` is the row of a subtask of task `tid`.
pub open spec fn is_child_of(id: TreeRowId, tid: u32) -> bool {
    id matches TreeRowId::Subtask { task, .. } && task == tid
}

/// The ids of rows that are the same rows as `spec` are the ids of `spec`.
pub proof fn lemma_same_rows_ids(rows: Seq<TreeRow>, spec: Seq<TreeRow>)
    requires
        same_rows(rows, spec),
    ensures
        row_ids(rows) == row_ids(spec),
{
    assert(row_ids(rows) =~= row_ids(spec));
}

/// The last position of a subtask row of task `tid` in `ids`, if any.
pub open spec fn last_child(ids: Seq<TreeRowId>, tid: u32) -> Option<usize>
    decreases ids.len(),
{
    if ids.len() == 0 {
        None
    } else if is_child_of(ids.last(), tid) {
        Some((ids.len() - 1) as usize)
    } else {
        last_child(ids.drop_last(), tid)
    }
}

/// A position found by `index_of` holds the id looked for.
pub proof fn lemma_index_of_bound(ids: Seq<TreeRowId>, id: TreeRowId)
    requires
        index_of(ids, id) is Some,
        ids.len() <= usize::MAX,
    ensures
        index_of(ids, id) matches Some(k) && k < ids.len() && ids[k as int] == id,
    decreases ids.len(),
{
    if index_of(ids.drop_last(), id) is Some {
        lemma_index_of_bound(ids.drop_last(), id);
        let k = index_of(ids.drop_last(), id)->0;
        assert(ids.drop_last()[k as int] == ids[k as int]);
    }
}

/// A position found by `last_child` holds a subtask row of the task.
pub proof fn lemma_last_child_bound(ids: Seq<TreeRowId>, tid: u32)
    requires
        last_child(ids, tid) is Some,
        ids.len() <= usize::MAX,
    ensures
        last_child(ids, tid) matches Some(k) && k < ids.len() && is_child_of(ids[k as int], tid),
    decreases ids.len(),
{
    if ids.len() > 0 && !is_child_of(ids.last(), tid) {
        lemma_last_child_bound(ids.drop_last(), tid);
        let k = last_child(ids.drop_last(), tid)->0;
        assert(ids.drop_last()[k as int] == ids[k as int]);
    }
}

/// The last position of a subtask row of task `tid` among `rows`.
pub fn last_child_row(rows: &Vec<TreeRow>, tid: u32) -> (r: Option<usize>)
    ensures
        r == last_child(row_ids(rows@), tid),
{
    let ghost ids = row_ids(rows@);
    let mut i: usize = rows.len();
    assert(ids.take(i as int) =~= ids);
    while i > 0
        invariant
            i <= rows@.len(),
            ids == row_ids(rows@),
            last_child(ids, tid) == last_child(ids.take(i as int), tid),
        decreases i,
    {
        let ghost pre = ids.take(i as int);
        assert(pre.last() == rows@[i - 1].id);
        assert(pre.drop_last() =~= ids.take(i - 1));
        let found = match rows[i - 1].id {
            TreeRowId::Subtask { task, .. } => task == tid,
            _ => false,
        };
        if found {
            return Some(i - 1);
        }
        i = i - 1;
    }
    None
}

/// The tree of `project` as rows, each task followed by its subtasks when
/// it is expanded.
pub fn flatten(project: &Project, expanded: &HashSet<u32>) -> (out: Vec<TreeRow>)
    ensures
        same_rows(out@, flatten_spec(*project, expanded@)),
{
    let mut out: Vec<TreeRow> = Vec::new();
    let n: usize = project.tasks.len();
    let mut i: usize = 0;
    while i < n
        invariant
            n == project.tasks@.len(),
            i <= n,
            same_rows(out@, tree_rows(project.tasks@, i as nat, expanded@)),
        decreases n - i,
    {
        let task = &project.tasks[i];
        let last_in_group = i + 1 == n;
        let has_subs = task.subtasks.len() > 0;
        let is_expanded = expanded.contains(&task.id);
        let kind = if has_subs {
            RowKind::Parent { expanded: is_expanded }
        } else {
            RowKind::Leaf
        };
        let ghost before = out@;
        out.push(TreeRow { id: TreeRowId::Task(task.id), depth: 0, last_in_group, kind });
        let ghost base = tree_rows(project.tasks@, i as nat, expanded@) + seq![
            task_row_spec(*task, last_in_group, expanded@),
        ];
        assert(same_rows(out@, base));
        if has_subs && is_expanded {
            let m: usize = task.subtasks.len();
            let mut j: usize = 0;
            while j < m
                invariant
                    m == task.subtasks@.len(),
                    j <= m,
                    same_rows(out@, base + subtask_rows(*task, j as nat)),
                decreases m - j,
            {
                let sub = &task.subtasks[j];
                out.push(
                    TreeRow {
                        id: TreeRowId::Subtask { task: task.id, sub: sub.id },
                        depth: 1,
                        last_in_group: j + 1 == m,
                        kind: RowKind::Subtask,
                    },
                );
                assert(base + subtask_rows(*task, (j + 1) as nat) =~= (base + subtask_rows(
                    *task,
                    j as nat,
                )).push(subtask_rows(*task, (j + 1) as nat).last()));
                j = j + 1;
            }
        }
        assert(tree_rows(project.tasks@, (i + 1) as nat, expanded@) =~= base + (if has_subs
            && is_expanded {
            subtask_rows(*task, task.subtasks@.len())
        } else {
            Seq::empty()
        }));
        i = i + 1;
    }
    out
}

/// The position of the row `cursor` among `rows`.
pub fn cursor_index(rows: &[TreeRow], cursor: TreeRowId) -> (r: Option<usize>)
    ensures
        r == index_of(row_ids(rows@), cursor),
{
    let mut i: usize = 0;
    while i < rows.len()
        invariant
            i <= rows@.len(),
            index_of(row_ids(rows@.take(i as int)), cursor) is None,
        decreases rows@.len() - i,
    {
        assert(row_ids(rows@.take(i + 1)).drop_last() =~= row_ids(rows@.take(i as int)));
        if rows[i].id == cursor {
            proof {
                let pre = row_ids(rows@.take(i + 1));
                assert(row_ids(rows@).take(i + 1) =~= pre);
                assert(pre.last() == cursor);
                assert(index_of(pre, cursor) == Some(i));
                lemma_index_of_prefix(row_ids(rows@), cursor, i + 1);
            }
            return Some(i);
        }
        assert(row_ids(rows@.take(i + 1)).last() != cursor);
        i = i + 1;
    }
    assert(rows@.take(i as int) =~= rows@);
    None
}

/// The first position of an id among a prefix is its first position among
/// the whole sequence.
pub proof fn lemma_index_of_prefix(ids: Seq<TreeRowId>, id: TreeRowId, k: int)
    requires
        0 <= k <= ids.len(),
        index_of(ids.take(k), id) is Some,
    ensures
        index_of(ids, id) == index_of(ids.take(k), id),
    decreases ids.len() - k,
{
    if k < ids.len() {
        assert(ids.take(k + 1).drop_last() =~= ids.take(k));
        lemma_index_of_prefix(ids, id, k + 1);
    } else {
        assert(ids.take(k) =~= ids);
    }
}

} // verus!
