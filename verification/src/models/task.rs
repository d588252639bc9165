use vstd::prelude::*;

use crate::clock::{format_ymd, now, ymd_date_text, Timestamp};
use crate::error::AppError;
use crate::models::priority::{priority_label, Priority};
use crate::models::status::{status_label, Status};
use crate::models::subtask::{edited_subtask, Subtask};
use crate::text::{decimal, push_decimal};

verus! {

/// A unit of work inside a project, optionally split into subtasks.
///
/// While the task has subtasks, its status follows them: all done makes it
/// `Completed`, some done `InProgress`, none done `New`. A manual status
/// change is only accepted when the subtasks agree with it.
#[derive(Debug)]
pub struct Task {
    pub id: u32,
    pub description: String,
    pub priority: Priority,
    pub status: Status,
    pub subtasks: Vec<Subtask>,
    pub next_subtask_id: u32,
    pub created_at: Timestamp,
}

/// How many of the subtasks are done.
pub open spec fn done_count(subs: Seq<Subtask>) -> nat
    decreases subs.len(),
{
    if subs.len() == 0 {
        0
    } else {
        done_count(subs.drop_last()) + (if subs.last().completed {
            1nat
        } else {
            0nat
        })
    }
}

/// Whether a task whose subtasks are `subs` may be put in status `s` by
/// hand: always without subtasks; otherwise `Completed` needs every subtask
/// done, `New` needs none done, and `InProgress` is always allowed.
pub open spec fn status_allowed(subs: Seq<Subtask>, s: Status) -> bool {
    subs.len() == 0 || match s {
        Status::Completed => done_count(subs) == subs.len(),
        Status::InProgress => true,
        Status::New => done_count(subs) == 0,
    }
}

/// The status a task takes after its subtasks changed: unchanged (`current`)
/// without subtasks, else `Completed` when all are done, `InProgress` when
/// some are, and `New` when none is.
pub open spec fn derived_status(subs: Seq<Subtask>, current: Status) -> Status {
    if subs.len() == 0 {
        current
    } else if done_count(subs) == subs.len() {
        Status::Completed
    } else if done_count(subs) > 0 {
        Status::InProgress
    } else {
        Status::New
    }
}

/// The error a refused manual change to status `s` reports for task `id`.
pub open spec fn refused_status_error(id: u32, s: Status) -> AppError {
    match s {
        Status::Completed => AppError::TaskHasIncompleteSubtasks { id },
        _ => AppError::InvalidStatusTransition { id },
    }
}

/// The error for refusing to put task `id` in status `s` by hand.
pub fn refused_status(id: u32, s: Status) -> (e: AppError)
    ensures
        e == refused_status_error(id, s),
{
    match s {
        Status::Completed => AppError::TaskHasIncompleteSubtasks { id },
        _ => AppError::InvalidStatusTransition { id },
    }
}

/// Whether `i` is the first position in `subs` of a subtask with id `sid`.
pub open spec fn first_subtask_at(subs: Seq<Subtask>, sid: u32, i: int) -> bool {
    &&& 0 <= i < subs.len()
    &&& subs[i].id == sid
    &&& forall|j: int| 0 <= j < i ==> subs[j].id != sid
}

/// Whether some subtask in `subs` has id `sid`.
pub open spec fn has_subtask(subs: Seq<Subtask>, sid: u32) -> bool {
    exists|j: int| 0 <= j < subs.len() && subs[j].id == sid
}

/// A subtask's done flag, as a count of one or zero.
pub open spec fn done_bit(s: Subtask) -> nat {
    if s.completed {
        1
    } else {
        0
    }
}

/// No more subtasks are done than there are subtasks.
pub proof fn lemma_done_count_bound(subs: Seq<Subtask>)
    ensures
        done_count(subs) <= subs.len(),
    decreases subs.len(),
{
    if subs.len() > 0 {
        lemma_done_count_bound(subs.drop_last());
    }
}

/// Replacing one subtask changes the done count by the difference of the
/// two subtasks' done flags.
pub proof fn lemma_done_count_update(subs: Seq<Subtask>, i: int, s: Subtask)
    requires
        0 <= i < subs.len(),
    ensures
        done_count(subs.update(i, s)) + done_bit(subs[i]) == done_count(subs) + done_bit(s),
    decreases subs.len(),
{
    let u = subs.update(i, s);
    if i == subs.len() - 1 {
        assert(u.drop_last() =~= subs.drop_last());
    } else {
        assert(u.drop_last() =~= subs.drop_last().update(i, s));
        lemma_done_count_update(subs.drop_last(), i, s);
    }
}

/// Removing one subtask lowers the done count by its done flag.
pub proof fn lemma_done_count_remove(subs: Seq<Subtask>, i: int)
    requires
        0 <= i < subs.len(),
    ensures
        done_count(subs.remove(i)) + done_bit(subs[i]) == done_count(subs),
    decreases subs.len(),
{
    let r = subs.remove(i);
    if i == subs.len() - 1 {
        assert(r =~= subs.drop_last());
    } else {
        assert(r.drop_last() =~= subs.drop_last().remove(i));
        assert(r.last() == subs.last());
        lemma_done_count_remove(subs.drop_last(), i);
    }
}

/// Replacing subtasks by ones with the same ids keeps the ids valid.
pub proof fn lemma_same_ids_keep_ok(a: Seq<Subtask>, b: Seq<Subtask>, next: u32)
    requires
        a.len() == b.len(),
        forall|i: int| 0 <= i < a.len() ==> a[i].id == b[i].id,
        subtask_ids_ok(a, next),
    ensures
        subtask_ids_ok(b, next),
{
    assert forall|i: int, j: int| 0 <= i < j < b.len() implies #[trigger] b[i].id != #[trigger] b[j].id by {
        assert(a[i].id != a[j].id);
    }
    assert forall|i: int| 0 <= i < b.len() implies #[trigger] b[i].id < next by {
        assert(a[i].id < next);
    }
}

/// A status derived from the subtasks is always one they allow.
pub proof fn lemma_derived_status_allowed(subs: Seq<Subtask>, current: Status)
    ensures
        status_allowed(subs, derived_status(subs, current)),
{
}

/// Only one position is the first holding a given subtask id.
pub proof fn lemma_first_subtask_unique(subs: Seq<Subtask>, id: u32, k: int)
    requires
        first_subtask_at(subs, id, k),
    ensures
        forall|m: int| first_subtask_at(subs, id, m) ==> m == k,
{
    assert forall|m: int| first_subtask_at(subs, id, m) implies m == k by {
        if m < k {
            assert(subs[m].id != id);
        } else if k < m {
            assert(subs[k].id != id);
        }
    }
}

/// Whether every subtask id is below `next` and no two subtasks share an id.
pub open spec fn subtask_ids_ok(subs: Seq<Subtask>, next: u32) -> bool {
    &&& forall|i: int| 0 <= i < subs.len() ==> #[trigger] subs[i].id < next
    &&& forall|i: int, j: int|
        0 <= i < j < subs.len() ==> #[trigger] subs[i].id != #[trigger] subs[j].id
}

/// `new` is `old` with its subtask at position `i` replaced by `s`; the
/// status is re-derived from the subtasks when `rederive` holds and left
/// alone otherwise.
pub open spec fn subtask_replaced(old: Task, new: Task, i: int, s: Subtask, rederive: bool) -> bool {
    &&& new.same_header(old)
    &&& new.next_subtask_id == old.next_subtask_id
    &&& new.subtasks@ == old.subtasks@.update(i, s)
    &&& new.status == (if rederive {
        derived_status(new.subtasks@, old.status)
    } else {
        old.status
    })
}

/// `new` is `old` with the first subtask whose id is `sid` marked done (or
/// not done, by `done`) and the status re-derived.
pub open spec fn subtask_marked(old: Task, new: Task, sid: u32, done: bool) -> bool {
    exists|i: int|
        first_subtask_at(old.subtasks@, sid, i) && subtask_replaced(
            old,
            new,
            i,
            Subtask { completed: done, ..old.subtasks@[i] },
            true,
        )
}

/// `new` is `old` with the first subtask whose id is `sid` edited; the
/// status does not change.
pub open spec fn subtask_edited(
    old: Task,
    new: Task,
    sid: u32,
    description: Option<String>,
    priority: Option<Priority>,
) -> bool {
    exists|i: int|
        first_subtask_at(old.subtasks@, sid, i) && subtask_replaced(
            old,
            new,
            i,
            edited_subtask(old.subtasks@[i], description, priority),
            false,
        )
}

/// `new` is `old` without its first subtask whose id is `sid`, which is
/// `removed`, and with the status re-derived.
pub open spec fn subtask_removed(old: Task, new: Task, sid: u32, removed: Subtask) -> bool {
    exists|i: int|
        {
            &&& first_subtask_at(old.subtasks@, sid, i)
            &&& removed == old.subtasks@[i]
            &&& new.same_header(old)
            &&& new.next_subtask_id == old.next_subtask_id
            &&& new.subtasks@ == old.subtasks@.remove(i)
            &&& new.status == derived_status(new.subtasks@, old.status)
        }
}

/// `new` is `old` with one more subtask at the end: not done, with the given
/// description and priority and the id `old.next_subtask_id`, which then
/// moves up by one; the status is re-derived.
pub open spec fn subtask_appended(
    old: Task,
    new: Task,
    description: String,
    priority: Priority,
) -> bool {
    &&& new.same_header(old)
    &&& new.subtasks@.len() == old.subtasks@.len() + 1
    &&& new.subtasks@.drop_last() == old.subtasks@
    &&& new.subtasks@.last().id == old.next_subtask_id
    &&& new.subtasks@.last().description == description
    &&& new.subtasks@.last().priority == priority
    &&& !new.subtasks@.last().completed
    &&& new.next_subtask_id == old.next_subtask_id + 1
    &&& new.status == derived_status(new.subtasks@, old.status)
}

/// How a task is displayed:
/// `[id]! description (priority) [status] -- (date)`, with a blank in place
/// of `!` unless the priority is high.
pub open spec fn task_text(t: Task) -> Seq<char> {
    "["@ + decimal(t.id as nat) + "]"@ + (if t.priority == Priority::High {
        "!"@
    } else {
        " "@
    }) + " "@ + t.description@ + " ("@ + priority_label(t.priority) + ") ["@ + status_label(
        t.status,
    ) + "] -- ("@ + ymd_date_text(t.created_at.secs, t.created_at.nanos) + ")"@
}

/// `t` with the description and the priority replaced where given.
pub open spec fn edited_task(t: Task, description: Option<String>, priority: Option<Priority>) -> Task {
    Task {
        description: match description {
            Some(d) => d,
            None => t.description,
        },
        priority: match priority {
            Some(p) => p,
            None => t.priority,
        },
        ..t
    }
}

impl Task {
    /// The status of the task.
    pub open spec fn current_status(self) -> Status {
        self.status
    }

    /// The id that the next new subtask receives.
    pub open spec fn next_subtask(self) -> u32 {
        self.next_subtask_id
    }

    /// `self` with only its status replaced by `s`.
    pub open spec fn with_status(self, s: Status) -> Task {
        Task { status: s, ..self }
    }

    /// The task's invariant: its status is one its subtasks allow, every
    /// subtask id is below the next one to hand out, and no two subtasks
    /// share an id.
    pub open spec fn wf(self) -> bool {
        &&& status_allowed(self.subtasks@, self.status)
        &&& subtask_ids_ok(self.subtasks@, self.next_subtask_id)
    }

    /// Whether `self` and `other` agree on everything but the subtasks, the
    /// next subtask id and the status.
    pub open spec fn same_header(self, other: Task) -> bool {
        &&& self.id == other.id
        &&& self.description == other.description
        &&& self.priority == other.priority
        &&& self.created_at == other.created_at
    }

    /// A task with no subtasks, created now.
    pub fn new(id: u32, description: String, priority: Priority, status: Status) -> (t: Self)
        ensures
            t.id == id,
            t.description == description,
            t.priority == priority,
            t.current_status() == status,
            t.subtasks@.len() == 0,
            t.next_subtask() == 0,
            t.wf(),
    {
        Task {
            id,
            description,
            priority,
            status,
            subtasks: Vec::new(),
            next_subtask_id: 0,
            created_at: now(),
        }
    }

    /// The status of the task.
    pub fn status(&self) -> (s: Status)
        ensures
            s == self.current_status(),
    {
        self.status
    }

    /// The id that the next new subtask receives.
    pub fn next_subtask_id(&self) -> (n: u32)
        ensures
            n == self.next_subtask(),
    {
        self.next_subtask_id
    }

    /// Manual status change, accepted iff the subtasks allow the new status.
    pub fn set_status(&mut self, new_status: Status) -> (r: Result<(), AppError>)
        ensures
            status_allowed(old(self).subtasks@, new_status) ==> r is Ok && *final(self) == old(
                self,
            ).with_status(new_status),
            !status_allowed(old(self).subtasks@, new_status) ==> r == Err::<(), AppError>(
                refused_status_error(old(self).id, new_status),
            ) && *final(self) == *old(self),
            old(self).wf() ==> final(self).wf(),
    {
        if !self.is_status_allowed(&new_status) {
            return Err(refused_status(self.id, new_status));
        }
        self.status = new_status;
        Ok(())
    }

    /// How many subtasks are done.
    pub fn completed_subtask_count(&self) -> (n: usize)
        ensures
            n == done_count(self.subtasks@),
    {
        let mut n: usize = 0;
        let mut i: usize = 0;
        while i < self.subtasks.len()
            invariant
                i <= self.subtasks@.len(),
                n == done_count(self.subtasks@.take(i as int)),
                n <= i,
            decreases self.subtasks@.len() - i,
        {
            assert(self.subtasks@.take(i + 1).drop_last() =~= self.subtasks@.take(i as int));
            if self.subtasks[i].completed {
                n = n + 1;
            }
            i = i + 1;
        }
        assert(self.subtasks@.take(i as int) =~= self.subtasks@);
        n
    }

    /// Whether the subtasks allow putting the task in `new_status` by hand.
    pub fn is_status_allowed(&self, new_status: &Status) -> (b: bool)
        ensures
            b == status_allowed(self.subtasks@, *new_status),
    {
        let total: usize = self.subtasks.len();
        if total == 0 {
            return true;
        }
        let done: usize = self.completed_subtask_count();
        match new_status {
            Status::Completed => done == total,
            Status::InProgress => true,
            Status::New => done == 0,
        }
    }

    /// Re-derives the status from the subtasks.
    fn recompute_status(&mut self)
        ensures
            *final(self) == old(self).with_status(
                derived_status(old(self).subtasks@, old(self).current_status()),
            ),
    {
        let total: usize = self.subtasks.len();
        if total == 0 {
            assert(*self == old(self).with_status(old(self).status));
            return;
        }
        let done: usize = self.completed_subtask_count();
        proof {
            lemma_done_count_bound(self.subtasks@);
        }
        self.status = if done == total {
            Status::Completed
        } else if done > 0 {
            Status::InProgress
        } else {
            Status::New
        };
    }

    /// Appends a new subtask (not done) with the next subtask id, then
    /// re-derives the status.
    pub fn add_subtask(&mut self, description: String, priority: Priority) -> (r: &Subtask)
        requires
            old(self).next_subtask() < u32::MAX,
        ensures
            subtask_appended(*old(self), *final(self), description, priority),
            *r == final(self).subtasks@.last(),
            old(self).wf() ==> final(self).wf(),
            old(self).wf() ==> !has_subtask(old(self).subtasks@, r.id),
    {
        let id: u32 = self.next_subtask_id;
        self.next_subtask_id = self.next_subtask_id + 1;
        let s = Subtask::new(id, description, priority);
        self.subtasks.push(s);
        self.recompute_status();
        assert(self.subtasks@.drop_last() =~= old(self).subtasks@);
        proof {
            lemma_derived_status_allowed(self.subtasks@, old(self).status);
            if old(self).wf() {
                assert forall|i: int, j: int|
                    0 <= i < j < self.subtasks@.len() implies #[trigger] self.subtasks@[i].id
                    != #[trigger] self.subtasks@[j].id by {
                    if j == self.subtasks@.len() - 1 {
                        assert(old(self).subtasks@[i].id < old(self).next_subtask_id);
                    } else {
                        assert(old(self).subtasks@[i].id != old(self).subtasks@[j].id);
                    }
                }
                assert forall|i: int| 0 <= i < self.subtasks@.len() implies #[trigger] self.subtasks@[i].id
                    < self.next_subtask_id by {
                    if i < old(self).subtasks@.len() {
                        assert(old(self).subtasks@[i].id < old(self).next_subtask_id);
                    }
                }
                assert forall|j: int| 0 <= j < old(self).subtasks@.len() implies old(self).subtasks@[j].id != id by {
                    assert(old(self).subtasks@[j].id < old(self).next_subtask_id);
                }
            }
        }
        let n: usize = self.subtasks.len();
        &self.subtasks[n - 1]
    }

    /// The position of the first subtask with id `sid`.
    pub fn get_subtask(&self, sid: u32) -> (r: Result<usize, AppError>)
        ensures
            match r {
                Ok(i) => first_subtask_at(self.subtasks@, sid, i as int),
                Err(e) => e == (AppError::SubtaskNotFound { task_id: self.id, subtask_id: sid })
                    && !has_subtask(self.subtasks@, sid),
            },
    {
        let mut i: usize = 0;
        while i < self.subtasks.len()
            invariant
                i <= self.subtasks@.len(),
                forall|j: int| 0 <= j < i ==> self.subtasks@[j].id != sid,
            decreases self.subtasks@.len() - i,
        {
            if self.subtasks[i].id == sid {
                return Ok(i);
            }
            i = i + 1;
        }
        Err(AppError::SubtaskNotFound { task_id: self.id, subtask_id: sid })
    }

    /// Removes the first subtask with id `sid` and re-derives the status.
    pub fn delete_subtask(&mut self, sid: u32) -> (r: Result<Subtask, AppError>)
        ensures
            match r {
                Ok(x) => subtask_removed(*old(self), *final(self), sid, x),
                Err(e) => e == (AppError::SubtaskNotFound { task_id: old(self).id, subtask_id: sid })
                    && !has_subtask(old(self).subtasks@, sid) && *final(self) == *old(self),
            },
            old(self).wf() ==> final(self).wf(),
    {
        let idx = self.get_subtask(sid)?;
        let removed = self.subtasks.remove(idx);
        self.recompute_status();
        proof {
            lemma_derived_status_allowed(self.subtasks@, old(self).status);
            let o = old(self).subtasks@;
            let n = self.subtasks@;
            assert forall|i: int| 0 <= i < n.len() implies n[i] == (if i < idx {
                o[i]
            } else {
                o[i + 1]
            }) by {}
            if old(self).wf() {
                assert forall|i: int, j: int|
                    0 <= i < j < n.len() implies #[trigger] n[i].id != #[trigger] n[j].id by {
                    let a = if i < idx { i } else { i + 1 };
                    let b = if j < idx { j } else { j + 1 };
                    assert(o[a].id != o[b].id);
                }
                assert forall|i: int| 0 <= i < n.len() implies #[trigger] n[i].id
                    < self.next_subtask_id by {
                    let a = if i < idx { i } else { i + 1 };
                    assert(o[a].id < old(self).next_subtask_id);
                }
            }
        }
        Ok(removed)
    }

    /// Marks the first subtask with id `sid` done and re-derives the status.
    pub fn complete_subtask(&mut self, sid: u32) -> (r: Result<&Subtask, AppError>)
        ensures
            match r {
                Ok(x) => subtask_marked(*old(self), *final(self), sid, true),
                Err(e) => e == (AppError::SubtaskNotFound { task_id: old(self).id, subtask_id: sid })
                    && !has_subtask(old(self).subtasks@, sid) && *final(self) == *old(self),
            },
            r matches Ok(x) ==> forall|i: int|
                first_subtask_at(old(self).subtasks@, sid, i) ==> *x == final(self).subtasks@[i],
            old(self).wf() ==> final(self).wf(),
    {
        let idx = self.get_subtask(sid)?;
        self.subtasks[idx].complete();
        self.recompute_status();
        proof {
            lemma_derived_status_allowed(self.subtasks@, old(self).status);
            if old(self).wf() {
                lemma_same_ids_keep_ok(old(self).subtasks@, self.subtasks@, self.next_subtask_id);
            }
        }
        Ok(&self.subtasks[idx])
    }

    /// Marks the first subtask with id `sid` not done and re-derives the
    /// status.
    pub fn uncomplete_subtask(&mut self, sid: u32) -> (r: Result<&Subtask, AppError>)
        ensures
            match r {
                Ok(x) => subtask_marked(*old(self), *final(self), sid, false),
                Err(e) => e == (AppError::SubtaskNotFound { task_id: old(self).id, subtask_id: sid })
                    && !has_subtask(old(self).subtasks@, sid) && *final(self) == *old(self),
            },
            r matches Ok(x) ==> forall|i: int|
                first_subtask_at(old(self).subtasks@, sid, i) ==> *x == final(self).subtasks@[i],
            old(self).wf() ==> final(self).wf(),
    {
        let idx = self.get_subtask(sid)?;
        self.subtasks[idx].uncomplete();
        self.recompute_status();
        proof {
            lemma_derived_status_allowed(self.subtasks@, old(self).status);
            if old(self).wf() {
                lemma_same_ids_keep_ok(old(self).subtasks@, self.subtasks@, self.next_subtask_id);
            }
        }
        Ok(&self.subtasks[idx])
    }

    /// Edits the first subtask with id `sid`; the status does not change.
    pub fn edit_subtask(
        &mut self,
        sid: u32,
        description: Option<String>,
        priority: Option<Priority>,
    ) -> (r: Result<&Subtask, AppError>)
        ensures
            match r {
                Ok(x) => subtask_edited(*old(self), *final(self), sid, description, priority),
                Err(e) => e == (AppError::SubtaskNotFound { task_id: old(self).id, subtask_id: sid })
                    && !has_subtask(old(self).subtasks@, sid) && *final(self) == *old(self),
            },
            r matches Ok(x) ==> forall|i: int|
                first_subtask_at(old(self).subtasks@, sid, i) ==> *x == final(self).subtasks@[i],
            old(self).wf() ==> final(self).wf(),
    {
        let idx = self.get_subtask(sid)?;
        self.subtasks[idx].edit(description, priority);
        proof {
            if old(self).wf() {
                lemma_same_ids_keep_ok(old(self).subtasks@, self.subtasks@, self.next_subtask_id);
            }
            lemma_done_count_update(
                old(self).subtasks@,
                idx as int,
                edited_subtask(old(self).subtasks@[idx as int], description, priority),
            );
        }
        Ok(&self.subtasks[idx])
    }

    /// Replaces the description and the priority where they are given.
    pub fn edit(&mut self, description: Option<String>, priority: Option<Priority>)
        ensures
            *final(self) == edited_task(*old(self), description, priority),
    {
        if let Some(desc) = description {
            self.description = desc;
        }
        if let Some(p) = priority {
            self.priority = p;
        }
    }

    /// The task as one line of text.
    pub fn display(&self) -> (t: String)
        ensures
            t@ == task_text(*self),
    {
        let mut t = "[".to_owned();
        push_decimal(&mut t, self.id as u64);
        t.append("]");
        if self.priority == Priority::High {
            t.append("!");
        } else {
            t.append(" ");
        }
        t.append(" ");
        t.append(self.description.as_str());
        t.append(" (");
        t.append(self.priority.label().as_str());
        t.append(") [");
        t.append(self.status.label().as_str());
        t.append("] -- (");
        t.append(format_ymd(&self.created_at).as_str());
        t.append(")");
        t
    }
}

} // verus!
