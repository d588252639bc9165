use vstd::prelude::*;

use crate::clock::{format_ymd, now, ymd_date_text, Timestamp};
use crate::error::AppError;
use crate::models::priority::Priority;
use crate::models::status::Status;
use crate::models::subtask::Subtask;
use crate::models::task::{
    edited_task, first_subtask_at, has_subtask, refused_status, refused_status_error, status_allowed, subtask_appended, subtask_edited,
    subtask_marked, subtask_removed, Task,
};
use crate::text::{decimal, push_decimal};

verus! {

/// A named project that contains a list of tasks.
#[derive(Debug)]
pub struct Project {
    pub id: u32,
    pub name: String,
    pub tasks: Vec<Task>,
    pub active_task_id: Option<u32>,
    pub created_at: Timestamp,
}

/// The elements of `s` that satisfy `p`, in their order.
pub open spec fn keep<A>(s: Seq<A>, p: spec_fn(A) -> bool) -> Seq<A>
    decreases s.len(),
{
    if s.len() == 0 {
        s
    } else if p(s.last()) {
        keep(s.drop_last(), p).push(s.last())
    } else {
        keep(s.drop_last(), p)
    }
}

/// One more than the largest task id, or zero when there are no tasks: the
/// id the next task added gets.
pub open spec fn task_id_bound(tasks: Seq<Task>) -> nat
    decreases tasks.len(),
{
    if tasks.len() == 0 {
        0
    } else {
        let rest = task_id_bound(tasks.drop_last());
        let here = tasks.last().id + 1;
        if rest >= here {
            rest
        } else {
            here as nat
        }
    }
}

/// Whether no two tasks share an id.
pub open spec fn task_ids_unique(tasks: Seq<Task>) -> bool {
    forall|i: int, j: int|
        0 <= i < j < tasks.len() ==> #[trigger] tasks[i].id != #[trigger] tasks[j].id
}

/// Whether `i` is the first position in `tasks` of a task with id `id`.
pub open spec fn first_task_at(tasks: Seq<Task>, id: u32, i: int) -> bool {
    &&& 0 <= i < tasks.len()
    &&& tasks[i].id == id
    &&& forall|j: int| 0 <= j < i ==> tasks[j].id != id
}

/// Whether some task in `tasks` has id `id`.
pub open spec fn has_task(tasks: Seq<Task>, id: u32) -> bool {
    exists|j: int| 0 <= j < tasks.len() && tasks[j].id == id
}

/// The tasks in status `s`, highest priority first; tasks of equal priority
/// keep their order (a stable sort by descending priority).
pub open spec fn tasks_by_priority(tasks: Seq<Task>, s: Status) -> Seq<Task> {
    let in_status = keep(tasks, |t: Task| t.status == s);
    keep(in_status, |t: Task| t.priority == Priority::High) + keep(
        in_status,
        |t: Task| t.priority == Priority::Medium,
    ) + keep(in_status, |t: Task| t.priority == Priority::Low)
}

/// How a project is displayed: `[id] name (n tasks) -- (date)`.
pub open spec fn project_text(p: Project) -> Seq<char> {
    "["@ + decimal(p.id as nat) + "] "@ + p.name@ + " ("@ + decimal(p.tasks@.len()) + " tasks) -- ("@
        + ymd_date_text(p.created_at.secs, p.created_at.nanos) + ")"@
}

/// Keeping what `q` accepts among what `p` accepts keeps what both accept.
pub proof fn lemma_keep_keep<A>(
    s: Seq<A>,
    p: spec_fn(A) -> bool,
    q: spec_fn(A) -> bool,
    both: spec_fn(A) -> bool,
)
    requires
        forall|x: A| #[trigger] both(x) == (p(x) && q(x)),
    ensures
        keep(keep(s, p), q) == keep(s, both),
    decreases s.len(),
{
    if s.len() > 0 {
        lemma_keep_keep(s.drop_last(), p, q, both);
        if p(s.last()) {
            assert(keep(s, p).drop_last() =~= keep(s.drop_last(), p));
        }
    }
}

/// Whether the references `refs` point, in order, at the tasks `ts`.
pub open spec fn refs_match(refs: Seq<&Task>, ts: Seq<Task>) -> bool {
    &&& refs.len() == ts.len()
    &&& forall|i: int| 0 <= i < refs.len() ==> *refs[i] == ts[i]
}

/// Appends to `out` a reference to each task of `tasks` that has status `s`
/// and priority `p`, in order.
fn push_matching<'a>(tasks: &'a Vec<Task>, s: Status, p: Priority, out: &mut Vec<&'a Task>)
    ensures
        final(out)@.map_values(|r: &Task| *r) == old(out)@.map_values(|r: &Task| *r) + keep(
            tasks@,
            |t: Task| t.status == s && t.priority == p,
        ),
{
    let ghost pred = |t: Task| t.status == s && t.priority == p;
    let ghost start = old(out)@.map_values(|r: &Task| *r);
    let mut i: usize = 0;
    while i < tasks.len()
        invariant
            i <= tasks@.len(),
            start == old(out)@.map_values(|r: &Task| *r),
            pred == (|t: Task| t.status == s && t.priority == p),
            out@.map_values(|r: &Task| *r) == start + keep(tasks@.take(i as int), pred),
        decreases tasks@.len() - i,
    {
        assert(tasks@.take(i + 1).drop_last() =~= tasks@.take(i as int));
        let t = &tasks[i];
        if t.status == s && t.priority == p {
            let ghost before = out@;
            out.push(t);
            assert(out@.map_values(|r: &Task| *r) =~= before.map_values(|r: &Task| *r).push(
                *t,
            ));
            assert(start + keep(tasks@.take(i + 1), pred) =~= (start + keep(
                tasks@.take(i as int),
                pred,
            )).push(tasks@[i as int]));
        }
        i = i + 1;
    }
    assert(tasks@.take(i as int) =~= tasks@);
}

/// Replacing a task of a well-formed project by a well-formed task with the
/// same id keeps the project well formed.
pub proof fn lemma_replace_keeps_wf(old: Project, new: Project, i: int, t: Task)
    requires
        old.wf(),
        0 <= i < old.tasks@.len(),
        new.tasks@ == old.tasks@.update(i, t),
        t.wf(),
        t.id == old.tasks@[i].id,
    ensures
        new.wf(),
{
    assert forall|k: int| 0 <= k < new.tasks@.len() implies #[trigger] new.tasks@[k].wf() by {
        if k != i {
            assert(new.tasks@[k] == old.tasks@[k]);
        }
    }
    assert forall|a: int, b: int|
        0 <= a < b < new.tasks@.len() implies #[trigger] new.tasks@[a].id
        != #[trigger] new.tasks@[b].id by {
        assert(old.tasks@[a].id != old.tasks@[b].id);
    }
}

/// Every task id is below `task_id_bound`.
pub proof fn lemma_task_id_bound(tasks: Seq<Task>)
    ensures
        forall|i: int| 0 <= i < tasks.len() ==> #[trigger] tasks[i].id < task_id_bound(tasks),
    decreases tasks.len(),
{
    if tasks.len() > 0 {
        lemma_task_id_bound(tasks.drop_last());
        assert forall|i: int| 0 <= i < tasks.len() implies #[trigger] tasks[i].id < task_id_bound(
            tasks,
        ) by {
            if i < tasks.len() - 1 {
                assert(tasks.drop_last()[i] == tasks[i]);
            }
        }
    }
}

/// Only one position is the first holding a given task id.
pub proof fn lemma_first_task_unique(tasks: Seq<Task>, id: u32, k: int)
    requires
        first_task_at(tasks, id, k),
    ensures
        forall|m: int| first_task_at(tasks, id, m) ==> m == k,
{
    assert forall|m: int| first_task_at(tasks, id, m) implies m == k by {
        if m < k {
            assert(tasks[m].id != id);
        } else if k < m {
            assert(tasks[k].id != id);
        }
    }
}

/// `new` is `old` with task `i` replaced by `t`, everything else unchanged.
pub open spec fn task_replaced(old: Project, new: Project, i: int, t: Task) -> bool {
    &&& new.same_header(old)
    &&& new.active_task_id == old.active_task_id
    &&& 0 <= i < old.tasks@.len()
    &&& new.tasks@ == old.tasks@.update(i, t)
}

/// A result holding a reference, read through it.
pub open spec fn read_task(r: Result<&Task, AppError>) -> Result<Task, AppError> {
    match r {
        Ok(t) => Ok(*t),
        Err(e) => Err(e),
    }
}

/// A result holding a reference, read through it.
pub open spec fn read_subtask(r: Result<&Subtask, AppError>) -> Result<Subtask, AppError> {
    match r {
        Ok(s) => Ok(*s),
        Err(e) => Err(e),
    }
}

/// `new` is `old` with one more task `t` at the end: in status `New`, with
/// no subtasks and the id `task_id_bound(old.tasks@)`.
pub open spec fn task_added(
    old: Project,
    new: Project,
    description: String,
    priority: Priority,
    t: Task,
) -> bool {
    &&& new.same_header(old)
    &&& new.active_task_id == old.active_task_id
    &&& new.tasks@.len() == old.tasks@.len() + 1
    &&& new.tasks@.drop_last() == old.tasks@
    &&& t == new.tasks@.last()
    &&& t.id == task_id_bound(old.tasks@)
    &&& t.description == description
    &&& t.priority == priority
    &&& t.status == Status::New
    &&& t.subtasks@.len() == 0
    &&& t.next_subtask_id == 0
}

/// The outcome of deleting task `id`: the first task with that id is
/// removed (the last task takes its place) and returned, and the active
/// task is cleared if it was `id`; or `TaskNotFound` with nothing changed.
pub open spec fn task_deleted(old: Project, new: Project, id: u32, r: Result<Task, AppError>) -> bool {
    match r {
        Ok(t) => exists|i: int|
            {
                &&& first_task_at(old.tasks@, id, i)
                &&& t == old.tasks@[i]
                &&& new.tasks@ == old.tasks@.update(i, old.tasks@.last()).drop_last()
                &&& new.same_header(old)
                &&& new.active_task_id == (if old.active_task_id == Some(id) {
                    None
                } else {
                    old.active_task_id
                })
            },
        Err(e) => e == (AppError::TaskNotFound { id }) && !has_task(old.tasks@, id) && new == old,
    }
}

/// The outcome of making task `id` active: it is put in progress and its id
/// recorded as active; or `TaskNotFound` with nothing changed.
pub open spec fn task_activated(
    old: Project,
    new: Project,
    id: u32,
    r: Result<Task, AppError>,
) -> bool {
    match r {
        Ok(t) => exists|i: int|
            {
                &&& first_task_at(old.tasks@, id, i)
                &&& t == old.tasks@[i].with_status(Status::InProgress)
                &&& new.tasks@ == old.tasks@.update(i, t)
                &&& new.same_header(old)
                &&& new.active_task_id == Some(id)
            },
        Err(e) => e == (AppError::TaskNotFound { id }) && !has_task(old.tasks@, id) && new == old,
    }
}

/// The outcome of moving task `id` to `status`: `TaskNotFound` when there is
/// no such task; otherwise the move happens iff the task's subtasks allow
/// the status, and is refused with nothing changed when they do not.
pub open spec fn task_moved(
    old: Project,
    new: Project,
    id: u32,
    status: Status,
    r: Result<Task, AppError>,
) -> bool {
    if !has_task(old.tasks@, id) {
        r == Err::<Task, AppError>(AppError::TaskNotFound { id }) && new == old
    } else {
        forall|i: int|
            first_task_at(old.tasks@, id, i) ==> if status_allowed(old.tasks@[i].subtasks@, status) {
                task_replaced(old, new, i, old.tasks@[i].with_status(status)) && r == Ok::<
                    Task,
                    AppError,
                >(new.tasks@[i])
            } else {
                r == Err::<Task, AppError>(refused_status_error(id, status)) && new == old
            }
    }
}

/// The outcome of editing task `id`.
pub open spec fn task_edited(
    old: Project,
    new: Project,
    id: u32,
    description: Option<String>,
    priority: Option<Priority>,
    r: Result<Task, AppError>,
) -> bool {
    match r {
        Ok(t) => exists|i: int|
            {
                &&& first_task_at(old.tasks@, id, i)
                &&& task_replaced(old, new, i, edited_task(old.tasks@[i], description, priority))
                &&& t == new.tasks@[i]
            },
        Err(e) => e == (AppError::TaskNotFound { id }) && !has_task(old.tasks@, id) && new == old,
    }
}

/// How looking up subtask `sid` of task `tid` fails: `TaskNotFound` when
/// there is no such task, else `SubtaskNotFound` when the task has no such
/// subtask.
pub open spec fn subtask_lookup_failed(old: Project, tid: u32, sid: u32, e: AppError) -> bool {
    if has_task(old.tasks@, tid) {
        e == (AppError::SubtaskNotFound { task_id: tid, subtask_id: sid }) && forall|i: int|
            first_task_at(old.tasks@, tid, i) ==> !has_subtask(old.tasks@[i].subtasks@, sid)
    } else {
        e == (AppError::TaskNotFound { id: tid })
    }
}

/// The outcome of adding a subtask to task `tid`.
pub open spec fn subtask_added(
    old: Project,
    new: Project,
    tid: u32,
    description: String,
    priority: Priority,
    r: Result<Subtask, AppError>,
) -> bool {
    match r {
        Ok(s) => exists|i: int|
            {
                &&& first_task_at(old.tasks@, tid, i)
                &&& task_replaced(old, new, i, new.tasks@[i])
                &&& subtask_appended(old.tasks@[i], new.tasks@[i], description, priority)
                &&& s == new.tasks@[i].subtasks@.last()
            },
        Err(e) => e == (AppError::TaskNotFound { id: tid }) && !has_task(old.tasks@, tid) && new
            == old,
    }
}

/// The outcome of deleting subtask `sid` of task `tid`.
pub open spec fn subtask_deleted(
    old: Project,
    new: Project,
    tid: u32,
    sid: u32,
    r: Result<Subtask, AppError>,
) -> bool {
    match r {
        Ok(s) => exists|i: int|
            {
                &&& first_task_at(old.tasks@, tid, i)
                &&& task_replaced(old, new, i, new.tasks@[i])
                &&& subtask_removed(old.tasks@[i], new.tasks@[i], sid, s)
            },
        Err(e) => new == old && subtask_lookup_failed(old, tid, sid, e),
    }
}

/// The outcome of marking subtask `sid` of task `tid` done (or not done).
pub open spec fn subtask_set_done(
    old: Project,
    new: Project,
    tid: u32,
    sid: u32,
    done: bool,
    r: Result<Subtask, AppError>,
) -> bool {
    match r {
        Ok(s) => exists|i: int|
            {
                &&& first_task_at(old.tasks@, tid, i)
                &&& task_replaced(old, new, i, new.tasks@[i])
                &&& subtask_marked(old.tasks@[i], new.tasks@[i], sid, done)
                &&& forall|j: int|
                    first_subtask_at(old.tasks@[i].subtasks@, sid, j) ==> s
                        == new.tasks@[i].subtasks@[j]
            },
        Err(e) => new == old && subtask_lookup_failed(old, tid, sid, e),
    }
}

/// The outcome of editing subtask `sid` of task `tid`.
pub open spec fn subtask_changed(
    old: Project,
    new: Project,
    tid: u32,
    sid: u32,
    description: Option<String>,
    priority: Option<Priority>,
    r: Result<Subtask, AppError>,
) -> bool {
    match r {
        Ok(s) => exists|i: int|
            {
                &&& first_task_at(old.tasks@, tid, i)
                &&& task_replaced(old, new, i, new.tasks@[i])
                &&& subtask_edited(old.tasks@[i], new.tasks@[i], sid, description, priority)
                &&& forall|j: int|
                    first_subtask_at(old.tasks@[i].subtasks@, sid, j) ==> s
                        == new.tasks@[i].subtasks@[j]
            },
        Err(e) => new == old && subtask_lookup_failed(old, tid, sid, e),
    }
}

/// What looking up the active task gives.
pub open spec fn active_lookup(p: Project, r: Result<Task, AppError>) -> bool {
    match p.active_task_id {
        None => r == Err::<Task, AppError>(AppError::NoActiveTask),
        Some(id) => if has_task(p.tasks@, id) {
            r matches Ok(t) && forall|i: int| first_task_at(p.tasks@, id, i) ==> t == p.tasks@[i]
        } else {
            r == Err::<Task, AppError>(AppError::NoActiveTask)
        },
    }
}

impl Project {
    /// Whether `self` and `other` have the same id, name and creation time.
    pub open spec fn same_header(self, other: Project) -> bool {
        &&& self.id == other.id
        &&& self.name == other.name
        &&& self.created_at == other.created_at
    }

    /// The project's invariant: every task keeps its own invariant and no
    /// two tasks share an id.
    pub open spec fn wf(self) -> bool {
        &&& forall|i: int| 0 <= i < self.tasks@.len() ==> #[trigger] self.tasks@[i].wf()
        &&& task_ids_unique(self.tasks@)
    }

    /// An empty project with no active task, created now.
    pub fn new(id: u32, name: String) -> (p: Self)
        ensures
            p.id == id,
            p.name == name,
            p.tasks@.len() == 0,
            p.active_task_id is None,
            p.wf(),
    {
        Project { id, name, tasks: Vec::new(), active_task_id: None, created_at: now() }
    }

    /// Adds a task in status `New`, with an id one above the largest task
    /// id (zero for the first task).
    pub fn add_task(&mut self, description: String, priority: Priority) -> (r: &Task)
        requires
            task_id_bound(old(self).tasks@) <= u32::MAX,
        ensures
            task_added(*old(self), *final(self), description, priority, *r),
            !has_task(old(self).tasks@, r.id),
            old(self).wf() ==> final(self).wf(),
    {
        let bound = self.task_id_ceiling();
        proof {
            lemma_task_id_bound(self.tasks@);
        }
        let id: u32 = bound as u32;
        let task = Task::new(id, description, priority, Status::New);
        self.tasks.push(task);
        assert(self.tasks@.drop_last() =~= old(self).tasks@);
        let n: usize = self.tasks.len();
        &self.tasks[n - 1]
    }

    /// One more than the largest task id (zero without tasks): the id the
    /// next task added gets, if it fits in a `u32`.
    pub fn task_id_ceiling(&self) -> (b: u64)
        ensures
            b == task_id_bound(self.tasks@),
            b <= u32::MAX + 1,
    {
        let mut bound: u64 = 0;
        let mut i: usize = 0;
        while i < self.tasks.len()
            invariant
                i <= self.tasks@.len(),
                bound == task_id_bound(self.tasks@.take(i as int)),
                bound <= u32::MAX + 1,
            decreases self.tasks@.len() - i,
        {
            assert(self.tasks@.take(i + 1).drop_last() =~= self.tasks@.take(i as int));
            let here: u64 = self.tasks[i].id as u64 + 1;
            if here > bound {
                bound = here;
            }
            i = i + 1;
        }
        assert(self.tasks@.take(i as int) =~= self.tasks@);
        bound
    }

    /// The position of the first task with id `id`.
    pub fn get_task(&self, id: u32) -> (r: Result<usize, AppError>)
        ensures
            match r {
                Ok(i) => first_task_at(self.tasks@, id, i as int),
                Err(e) => e == (AppError::TaskNotFound { id }) && !has_task(self.tasks@, id),
            },
    {
        let mut i: usize = 0;
        while i < self.tasks.len()
            invariant
                i <= self.tasks@.len(),
                forall|j: int| 0 <= j < i ==> self.tasks@[j].id != id,
            decreases self.tasks@.len() - i,
        {
            if self.tasks[i].id == id {
                return Ok(i);
            }
            i = i + 1;
        }
        Err(AppError::TaskNotFound { id })
    }

    /// Removes the first task with id `id` (moving the last task into its
    /// place) and clears the active task if it was this id.
    pub fn delete_task(&mut self, id: u32) -> (r: Result<Task, AppError>)
        ensures
            task_deleted(*old(self), *final(self), id, r),
            old(self).wf() ==> final(self).wf(),
    {
        let pos = self.get_task(id)?;
        if self.active_task_id == Some(id) {
            self.active_task_id = None;
        }
        let t = self.tasks.swap_remove(pos);
        proof {
            let o = old(self).tasks@;
            if old(self).wf() {
                assert forall|k: int| 0 <= k < self.tasks@.len() implies #[trigger] self.tasks@[k].wf() by {
                    if k == pos {
                        assert(self.tasks@[k] == o[o.len() - 1]);
                    } else {
                        assert(self.tasks@[k] == o[k]);
                    }
                }
            }
        }
        Ok(t)
    }

    /// The number of tasks.
    pub fn task_count(&self) -> (n: usize)
        ensures
            n == self.tasks@.len(),
    {
        self.tasks.len()
    }

    /// The active task: refused with `NoActiveTask` when no task is active
    /// or the active id names no task.
    pub fn active_task(&self) -> (r: Result<&Task, AppError>)
        ensures
            active_lookup(*self, read_task(r)),
    {
        let id: u32 = match self.active_task_id {
            Some(id) => id,
            None => return Err(AppError::NoActiveTask),
        };
        let idx: usize = match self.get_task(id) {
            Ok(i) => i,
            Err(_) => return Err(AppError::NoActiveTask),
        };
        Ok(&self.tasks[idx])
    }

    /// Makes task `id` the active task and puts it in progress.
    pub fn set_active_task(&mut self, id: u32) -> (r: Result<&mut Task, AppError>)
        ensures
            match r {
                Ok(t) => exists|i: int|
                    {
                        &&& first_task_at(old(self).tasks@, id, i)
                        &&& *t == old(self).tasks@[i].with_status(Status::InProgress)
                        &&& final(self).tasks@ == old(self).tasks@.update(i, *final(t))
                    },
                Err(e) => e == (AppError::TaskNotFound { id }) && !has_task(old(self).tasks@, id),
            },
            r is Ok ==> final(self).same_header(*old(self)) && final(self).active_task_id == Some(
                id,
            ),
            r is Err ==> *final(self) == *old(self),
    {
        let idx = self.get_task(id)?;
        self.active_task_id = Some(id);
        let task = &mut self.tasks[idx];
        // Putting a task in progress is always allowed, so this cannot fail.
        let _ = task.set_status(Status::InProgress);
        Ok(task)
    }

    /// Moves task `id` to `status`, if its subtasks allow that status.
    pub fn move_task(&mut self, id: u32, status: Status) -> (r: Result<&Task, AppError>)
        ensures
            task_moved(*old(self), *final(self), id, status, read_task(r)),
            old(self).wf() ==> final(self).wf(),
    {
        let idx = self.get_task(id)?;
        if !self.tasks[idx].is_status_allowed(&status) {
            return Err(refused_status(id, status));
        }
        let _ = self.tasks[idx].set_status(status);
        Ok(&self.tasks[idx])
    }

    /// Completes the active task and clears the active marker.
    pub fn complete_active_task(&mut self) -> (r: Result<&Task, AppError>)
        ensures
            match old(self).active_task_id {
                None => r == Err::<&Task, AppError>(AppError::NoActiveTask) && *final(self) == *old(
                    self,
                ),
                Some(id) => {
                    &&& !has_task(old(self).tasks@, id) ==> r == Err::<&Task, AppError>(
                        AppError::TaskNotFound { id },
                    ) && *final(self) == *old(self)
                    &&& forall|i: int|
                        first_task_at(old(self).tasks@, id, i) ==> if status_allowed(
                            old(self).tasks@[i].subtasks@,
                            Status::Completed,
                        ) {
                            &&& final(self).same_header(*old(self))
                            &&& final(self).active_task_id is None
                            &&& final(self).tasks@ == old(self).tasks@.update(
                                i,
                                old(self).tasks@[i].with_status(Status::Completed),
                            )
                            &&& r matches Ok(t) && *t == final(self).tasks@[i]
                        } else {
                            &&& r == Err::<&Task, AppError>(
                                refused_status_error(id, Status::Completed),
                            )
                            &&& *final(self) == *old(self)
                        }
                },
            },
            old(self).wf() ==> final(self).wf(),
    {
        let id: u32 = match self.active_task_id {
            Some(id) => id,
            None => return Err(AppError::NoActiveTask),
        };
        let idx = self.get_task(id)?;
        if !self.tasks[idx].is_status_allowed(&Status::Completed) {
            return Err(refused_status(id, Status::Completed));
        }
        let _ = self.tasks[idx].set_status(Status::Completed);
        self.active_task_id = None;
        Ok(&self.tasks[idx])
    }

    /// Task `id`, for changing it in place.
    pub fn get_task_mut(&mut self, id: u32) -> (r: Result<&mut Task, AppError>)
        ensures
            match r {
                Ok(t) => exists|i: int|
                    {
                        &&& first_task_at(old(self).tasks@, id, i)
                        &&& *t == old(self).tasks@[i]
                        &&& task_replaced(*old(self), *final(self), i, *final(t))
                    },
                Err(e) => e == (AppError::TaskNotFound { id }) && !has_task(old(self).tasks@, id)
                    && *final(self) == *old(self),
            },
    {
        let idx = self.get_task(id)?;
        Ok(&mut self.tasks[idx])
    }

    /// The tasks in status `status`, highest priority first; tasks of equal
    /// priority keep their order.
    pub fn tasks_with_status(&self, status: &Status) -> (r: Vec<&Task>)
        ensures
            refs_match(r@, tasks_by_priority(self.tasks@, *status)),
    {
        let mut out: Vec<&Task> = Vec::new();
        assert(out@.map_values(|r: &Task| *r) =~= Seq::<Task>::empty());
        push_matching(&self.tasks, *status, Priority::High, &mut out);
        push_matching(&self.tasks, *status, Priority::Medium, &mut out);
        push_matching(&self.tasks, *status, Priority::Low, &mut out);
        proof {
            let st = *status;
            let in_status = |t: Task| t.status == st;
            lemma_keep_keep(
                self.tasks@,
                in_status,
                |t: Task| t.priority == Priority::High,
                |t: Task| t.status == st && t.priority == Priority::High,
            );
            lemma_keep_keep(
                self.tasks@,
                in_status,
                |t: Task| t.priority == Priority::Medium,
                |t: Task| t.status == st && t.priority == Priority::Medium,
            );
            lemma_keep_keep(
                self.tasks@,
                in_status,
                |t: Task| t.priority == Priority::Low,
                |t: Task| t.status == st && t.priority == Priority::Low,
            );
            let spec = tasks_by_priority(self.tasks@, st);
            assert(out@.map_values(|r: &Task| *r) =~= spec);
            assert forall|i: int| 0 <= i < out@.len() implies *out@[i] == spec[i] by {
                assert(out@.map_values(|r: &Task| *r)[i] == *out@[i]);
            }
        }
        out
    }

    /// How many tasks are completed.
    pub fn complete_tasks(&self) -> (n: usize)
        ensures
            n == keep(self.tasks@, |t: Task| t.status == Status::Completed).len(),
    {
        let ghost pred = |t: Task| t.status == Status::Completed;
        let mut n: usize = 0;
        let mut i: usize = 0;
        while i < self.tasks.len()
            invariant
                i <= self.tasks@.len(),
                pred == (|t: Task| t.status == Status::Completed),
                n == keep(self.tasks@.take(i as int), pred).len(),
                n <= i,
            decreases self.tasks@.len() - i,
        {
            assert(self.tasks@.take(i + 1).drop_last() =~= self.tasks@.take(i as int));
            if self.tasks[i].status == Status::Completed {
                n = n + 1;
            }
            i = i + 1;
        }
        assert(self.tasks@.take(i as int) =~= self.tasks@);
        n
    }

    // ---------- subtask pass-throughs ----------

    /// Adds a subtask to task `tid` (see `Task::add_subtask`).
    pub fn add_subtask(
        &mut self,
        tid: u32,
        description: String,
        priority: Priority,
    ) -> (r: Result<&Subtask, AppError>)
        requires
            forall|i: int|
                first_task_at(old(self).tasks@, tid, i) ==> old(self).tasks@[i].next_subtask_id
                    < u32::MAX,
        ensures
            subtask_added(*old(self), *final(self), tid, description, priority, read_subtask(r)),
            old(self).wf() ==> final(self).wf(),
    {
        let idx = self.get_task(tid)?;
        let s = self.tasks[idx].add_subtask(description, priority);
        Ok(s)
    }

    /// Removes subtask `sid` of task `tid` (see `Task::delete_subtask`).
    pub fn delete_subtask(&mut self, tid: u32, sid: u32) -> (r: Result<Subtask, AppError>)
        ensures
            subtask_deleted(*old(self), *final(self), tid, sid, r),
            old(self).wf() ==> final(self).wf(),
    {
        let idx = self.get_task(tid)?;
        self.tasks[idx].get_subtask(sid)?;
        let r = self.tasks[idx].delete_subtask(sid);
        r
    }

    /// Marks subtask `sid` of task `tid` done (see `Task::complete_subtask`).
    pub fn complete_subtask(&mut self, tid: u32, sid: u32) -> (r: Result<&Subtask, AppError>)
        ensures
            subtask_set_done(*old(self), *final(self), tid, sid, true, read_subtask(r)),
            old(self).wf() ==> final(self).wf(),
    {
        let idx = self.get_task(tid)?;
        self.tasks[idx].get_subtask(sid)?;
        let r = self.tasks[idx].complete_subtask(sid);
        r
    }

    /// Marks subtask `sid` of task `tid` not done (see
    /// `Task::uncomplete_subtask`).
    pub fn uncomplete_subtask(&mut self, tid: u32, sid: u32) -> (r: Result<&Subtask, AppError>)
        ensures
            subtask_set_done(*old(self), *final(self), tid, sid, false, read_subtask(r)),
            old(self).wf() ==> final(self).wf(),
    {
        let idx = self.get_task(tid)?;
        self.tasks[idx].get_subtask(sid)?;
        let r = self.tasks[idx].uncomplete_subtask(sid);
        r
    }

    /// Edits subtask `sid` of task `tid` (see `Task::edit_subtask`).
    pub fn edit_subtask(
        &mut self,
        tid: u32,
        sid: u32,
        description: Option<String>,
        priority: Option<Priority>,
    ) -> (r: Result<&Subtask, AppError>)
        ensures
            subtask_changed(*old(self), *final(self), tid, sid, description, priority, read_subtask(r)),
            old(self).wf() ==> final(self).wf(),
    {
        let idx = self.get_task(tid)?;
        self.tasks[idx].get_subtask(sid)?;
        let r = self.tasks[idx].edit_subtask(sid, description, priority);
        r
    }

    /// The project as one line of text.
    pub fn display(&self) -> (t: String)
        ensures
            t@ == project_text(*self),
    {
        let mut t = "[".to_owned();
        push_decimal(&mut t, self.id as u64);
        t.append("] ");
        t.append(self.name.as_str());
        t.append(" (");
        push_decimal(&mut t, self.tasks.len() as u64);
        t.append(" tasks) -- (");
        t.append(format_ymd(&self.created_at).as_str());
        t.append(")");
        t
    }

    /// Edits the description and the priority of task `id` where given.
    pub fn edit_task(
        &mut self,
        id: u32,
        description: Option<String>,
        priority: Option<Priority>,
    ) -> (r: Result<&Task, AppError>)
        ensures
            task_edited(*old(self), *final(self), id, description, priority, read_task(r)),
            old(self).wf() ==> final(self).wf(),
    {
        let idx = self.get_task(id)?;
        self.tasks[idx].edit(description, priority);
        proof {
            if old(self).wf() {
                assert forall|k: int| 0 <= k < self.tasks@.len() implies #[trigger] self.tasks@[k].wf() by {
                    if k != idx {
                        assert(self.tasks@[k] == old(self).tasks@[k]);
                    } else {
                        assert(old(self).tasks@[k].wf());
                    }
                }
            }
        }
        Ok(&self.tasks[idx])
    }
}

} // verus!
