//! The projects of one workspace and which of them is active.
//!
//! Reading and writing the workspace's `state.json` happens outside the
//! library; this module holds what the state is and how it changes.

use vstd::prelude::*;

use crate::error::AppError;
use crate::models::project::{project_text, Project};

verus! {

/// The state of one `rtodo` workspace.
#[derive(Debug)]
pub struct Workspace {
    /// All projects tracked by this workspace.
    pub projects: Vec<Project>,
    /// Id of the currently active project, if any.
    pub active_project_id: Option<u32>,
}

/// Whether `i` is the first position in `projects` of a project with id `id`.
pub open spec fn first_project_at(projects: Seq<Project>, id: u32, i: int) -> bool {
    &&& 0 <= i < projects.len()
    &&& projects[i].id == id
    &&& forall|j: int| 0 <= j < i ==> projects[j].id != id
}

/// Whether some project in `projects` has id `id`.
pub open spec fn has_project(projects: Seq<Project>, id: u32) -> bool {
    exists|j: int| 0 <= j < projects.len() && projects[j].id == id
}

/// The lines a workspace is displayed as: each project's text, a space, and
/// `[ACTIVE]` for the active project.
pub open spec fn workspace_text(projects: Seq<Project>, active: Option<u32>) -> Seq<char>
    decreases projects.len(),
{
    if projects.len() == 0 {
        Seq::empty()
    } else {
        let p = projects.last();
        workspace_text(projects.drop_last(), active) + project_text(p) + " "@ + (if active == Some(
            p.id,
        ) {
            "[ACTIVE]"@
        } else {
            ""@
        }) + "\n"@
    }
}

/// `new` is `old` with one more project `p` at the end: empty, with no
/// active task, named `name`, and with the number of projects `old` had (as
/// a `u32`) as its id.
pub open spec fn project_added(old: Workspace, new: Workspace, name: String, p: Project) -> bool {
    &&& new.projects@.len() == old.projects@.len() + 1
    &&& new.projects@.drop_last() == old.projects@
    &&& p == new.projects@.last()
    &&& p.id == old.projects@.len() as u32
    &&& p.name == name
    &&& p.tasks@.len() == 0
    &&& p.active_task_id is None
    &&& new.active_project_id == old.active_project_id
}

/// The outcome of making project `id` active.
pub open spec fn project_activated(
    old: Workspace,
    new: Workspace,
    id: u32,
    r: Result<Project, AppError>,
) -> bool {
    match r {
        Ok(p) => exists|i: int|
            {
                &&& first_project_at(old.projects@, id, i)
                &&& p == old.projects@[i]
                &&& new.projects@ == old.projects@
                &&& new.active_project_id == Some(id)
            },
        Err(e) => e == (AppError::ProjectNotFound { id }) && !has_project(old.projects@, id) && new
            == old,
    }
}

/// The outcome of deleting project `id`: the first project with that id is
/// removed (the last project takes its place) and returned, and the active
/// project is cleared if it was `id`; or `ProjectNotFound` with nothing
/// changed.
pub open spec fn project_deleted(
    old: Workspace,
    new: Workspace,
    id: u32,
    r: Result<Project, AppError>,
) -> bool {
    match r {
        Ok(p) => exists|i: int|
            {
                &&& first_project_at(old.projects@, id, i)
                &&& p == old.projects@[i]
                &&& new.projects@ == old.projects@.update(i, old.projects@.last()).drop_last()
                &&& new.active_project_id == (if old.active_project_id == Some(id) {
                    None
                } else {
                    old.active_project_id
                })
            },
        Err(e) => e == (AppError::ProjectNotFound { id }) && !has_project(old.projects@, id) && new
            == old,
    }
}

/// The outcome of renaming project `id`.
pub open spec fn project_renamed(
    old: Workspace,
    new: Workspace,
    id: u32,
    name: String,
    r: Result<Project, AppError>,
) -> bool {
    match r {
        Ok(p) => exists|i: int|
            {
                &&& first_project_at(old.projects@, id, i)
                &&& new.projects@ == old.projects@.update(i, Project { name: name, ..old.projects@[i] })
                &&& p == new.projects@[i]
                &&& new.active_project_id == old.active_project_id
            },
        Err(e) => e == (AppError::ProjectNotFound { id }) && !has_project(old.projects@, id) && new
            == old,
    }
}

/// The position of the active project, if the active id names a project:
/// the first project with that id.
pub open spec fn active_project_at(w: Workspace, i: int) -> bool {
    match w.active_project_id {
        None => false,
        Some(id) => first_project_at(w.projects@, id, i),
    }
}

/// Whether the active id names a project.
pub open spec fn has_active_project(w: Workspace) -> bool {
    match w.active_project_id {
        None => false,
        Some(id) => has_project(w.projects@, id),
    }
}

/// A result holding a reference, read through it.
pub open spec fn read_project(r: Result<&Project, AppError>) -> Result<Project, AppError> {
    match r {
        Ok(p) => Ok(*p),
        Err(e) => Err(e),
    }
}

impl Workspace {
    /// The workspace's invariant: every project keeps its own.
    pub open spec fn wf(self) -> bool {
        forall|i: int| 0 <= i < self.projects@.len() ==> #[trigger] self.projects@[i].wf()
    }

    /// An empty workspace.
    pub fn new() -> (w: Self)
        ensures
            w.projects@.len() == 0,
            w.active_project_id is None,
            w.wf(),
    {
        Workspace { projects: Vec::new(), active_project_id: None }
    }

    /// A new, empty workspace for a directory; refused with
    /// `WorkspaceAlreadyInit` when the directory already holds one
    /// (`state_exists`).
    pub fn init(state_exists: bool) -> (r: Result<Workspace, AppError>)
        ensures
            match r {
                Ok(w) => !state_exists && w.projects@.len() == 0 && w.active_project_id is None
                    && w.wf(),
                Err(e) => state_exists && e == AppError::WorkspaceAlreadyInit,
            },
    {
        if state_exists {
            return Err(AppError::WorkspaceAlreadyInit);
        }
        Ok(Workspace::new())
    }

    /// The position of the first project with id `id`.
    pub fn get_project(&self, id: u32) -> (r: Result<usize, AppError>)
        ensures
            match r {
                Ok(i) => first_project_at(self.projects@, id, i as int),
                Err(e) => e == (AppError::ProjectNotFound { id }) && !has_project(self.projects@, id),
            },
    {
        let mut i: usize = 0;
        while i < self.projects.len()
            invariant
                i <= self.projects@.len(),
                forall|j: int| 0 <= j < i ==> self.projects@[j].id != id,
            decreases self.projects@.len() - i,
        {
            if self.projects[i].id == id {
                return Ok(i);
            }
            i = i + 1;
        }
        Err(AppError::ProjectNotFound { id })
    }

    /// The active project, for changing it in place; refused with
    /// `NoActiveProject` when none is set or the id names no project.
    pub fn active_project(&mut self) -> (r: Result<&mut Project, AppError>)
        ensures
            match r {
                Ok(p) => exists|i: int|
                    {
                        &&& active_project_at(*old(self), i)
                        &&& *p == old(self).projects@[i]
                        &&& final(self).projects@ == old(self).projects@.update(i, *final(p))
                        &&& final(self).active_project_id == old(self).active_project_id
                    },
                Err(e) => e == AppError::NoActiveProject && *final(self) == *old(self)
                    && !has_active_project(*old(self)),
            },
    {
        let id: u32 = match self.active_project_id {
            Some(id) => id,
            None => return Err(AppError::NoActiveProject),
        };
        let idx: usize = match self.get_project(id) {
            Ok(i) => i,
            Err(_) => return Err(AppError::NoActiveProject),
        };
        assert(active_project_at(*old(self), idx as int));
        Ok(&mut self.projects[idx])
    }

    /// Makes project `id` the active project.
    pub fn set_active_project(&mut self, id: u32) -> (r: Result<&mut Project, AppError>)
        ensures
            match r {
                Ok(p) => exists|i: int|
                    {
                        &&& first_project_at(old(self).projects@, id, i)
                        &&& *p == old(self).projects@[i]
                        &&& final(self).projects@ == old(self).projects@.update(i, *final(p))
                        &&& final(self).active_project_id == Some(id)
                    },
                Err(e) => e == (AppError::ProjectNotFound { id }) && !has_project(
                    old(self).projects@,
                    id,
                ) && *final(self) == *old(self),
            },
    {
        let idx = self.get_project(id)?;
        self.active_project_id = Some(id);
        Ok(&mut self.projects[idx])
    }

    /// Clears the active project selection.
    pub fn clear_active_project(&mut self)
        ensures
            final(self).projects == old(self).projects,
            final(self).active_project_id is None,
    {
        self.active_project_id = None;
    }

    /// Appends a new, empty project whose id is the number of projects there
    /// were before (taken as a `u32`).
    pub fn add_project(&mut self, name: String) -> (r: &Project)
        ensures
            project_added(*old(self), *final(self), name, *r),
            old(self).wf() ==> final(self).wf(),
    {
        let idx: usize = self.projects.len();
        let p = Project::new(idx as u32, name);
        self.projects.push(p);
        assert(self.projects@.drop_last() =~= old(self).projects@);
        &self.projects[idx]
    }

    /// Removes the first project with id `id` (moving the last project into
    /// its place) and clears the active project if it was this id.
    pub fn delete_project(&mut self, id: u32) -> (r: Result<Project, AppError>)
        ensures
            project_deleted(*old(self), *final(self), id, r),
            old(self).wf() ==> final(self).wf(),
    {
        let idx = self.get_project(id)?;
        if self.active_project_id == Some(id) {
            self.active_project_id = None;
        }
        let p = self.projects.swap_remove(idx);
        proof {
            let o = old(self).projects@;
            if old(self).wf() {
                assert forall|k: int| 0 <= k < self.projects@.len() implies #[trigger] self.projects@[k].wf() by {
                    if k == idx {
                        assert(self.projects@[k] == o[o.len() - 1]);
                    } else {
                        assert(self.projects@[k] == o[k]);
                    }
                }
            }
        }
        Ok(p)
    }

    /// Renames the first project with id `id`.
    pub fn edit_project(&mut self, id: u32, name: String) -> (r: Result<&Project, AppError>)
        ensures
            project_renamed(*old(self), *final(self), id, name, read_project(r)),
            old(self).wf() ==> final(self).wf(),
    {
        let idx = self.get_project(id)?;
        self.projects[idx].name = name;
        proof {
            if old(self).wf() {
                assert forall|k: int| 0 <= k < self.projects@.len() implies #[trigger] self.projects@[k].wf() by {
                    if k != idx {
                        assert(self.projects@[k] == old(self).projects@[k]);
                    } else {
                        assert(old(self).projects@[k].wf());
                    }
                }
            }
        }
        Ok(&self.projects[idx])
    }

    /// The workspace as text: one line per project, the active one marked.
    pub fn display(&self) -> (t: String)
        ensures
            t@ == workspace_text(self.projects@, self.active_project_id),
    {
        let mut t = String::new();
        let mut i: usize = 0;
        while i < self.projects.len()
            invariant
                i <= self.projects@.len(),
                t@ == workspace_text(self.projects@.take(i as int), self.active_project_id),
            decreases self.projects@.len() - i,
        {
            assert(self.projects@.take(i + 1).drop_last() =~= self.projects@.take(i as int));
            let p = &self.projects[i];
            t.append(p.display().as_str());
            t.append(" ");
            if self.active_project_id == Some(p.id) {
                t.append("[ACTIVE]");
            } else {
                t.append("");
            }
            t.append("\n");
            i = i + 1;
        }
        assert(self.projects@.take(i as int) =~= self.projects@);
        t
    }
}

} // verus!
