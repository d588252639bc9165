//! Runtime state of the interface.

use std::collections::HashSet;
use vstd::prelude::*;

use crate::models::project::Project;
use crate::tui::draft::{Draft, InsertTarget};
use crate::tui::overlay::Overlay;
use crate::workspace::{first_project_at, Workspace};

verus! {

/// A key, as the interface distinguishes keys.
#[derive(Debug, Clone, Copy, PartialEq, Eq, Structural)]
pub enum Key {
    Char(char),
    Enter,
    Esc,
    Backspace,
    Tab,
    Up,
    Down,
    Left,
    Right,
    /// Any other key.
    Other,
}

/// The interface: the workspace plus the runtime state around it.
#[derive(Debug)]
pub struct App {
    pub workspace: Workspace,
    pub screen: ProjectScreen,
    pub overlay: Option<Overlay>,
    /// Message shown in the help row; cleared by the next action.
    pub error: Option<String>,
    /// Last key, for two-key chords (`dd`).
    pub last_key: Option<Key>,
    pub should_quit: bool,
}

/// The interface as a mathematical value: the workspace's projects and
/// active project, the screen, the overlay, the error and the last key.
pub struct AppState {
    pub projects: Seq<Project>,
    pub active_project_id: Option<u32>,
    pub p_idx: Option<usize>,
    pub sidebar_cursor: usize,
    pub expanded: Set<u32>,
    pub cursor: Option<TreeRowId>,
    pub focus: ProjectFocus,
    /// The draft's text and target while inserting.
    pub draft: Option<(Seq<char>, InsertTarget)>,
    pub overlay: Option<Overlay>,
    pub error: Option<Seq<char>>,
    pub last_key: Option<Key>,
    pub should_quit: bool,
}

impl AppState {
    /// The open project, when there is one, is a project of the workspace.
    pub open spec fn wf(self) -> bool {
        self.p_idx matches Some(i) ==> i < self.projects.len()
    }
}

impl View for App {
    type V = AppState;

    open spec fn view(&self) -> AppState {
        AppState {
            projects: self.workspace.projects@,
            active_project_id: self.workspace.active_project_id,
            p_idx: self.screen.p_idx,
            sidebar_cursor: self.screen.sidebar_cursor,
            expanded: self.screen.tree.expanded@,
            cursor: self.screen.tree.cursor,
            focus: self.screen.focus,
            draft: match self.screen.mode {
                ScreenMode::Navigate => None,
                ScreenMode::Insert(d) => Some((d.text@, d.target)),
            },
            overlay: self.overlay,
            error: match self.error {
                Some(e) => Some(e@),
                None => None,
            },
            last_key: self.last_key,
            should_quit: self.should_quit,
        }
    }
}

/// The single screen: the sidebar cursor plus the tree of the open project.
#[derive(Debug)]
pub struct ProjectScreen {
    /// Position of the open project in the workspace, if any.
    pub p_idx: Option<usize>,
    /// Cursor in the sidebar's project list.
    pub sidebar_cursor: usize,
    pub tree: TreeState,
    pub focus: ProjectFocus,
    pub mode: ScreenMode,
}

/// Which pane keystrokes apply to.
#[derive(Debug, Clone, Copy, PartialEq, Eq, Structural)]
pub enum ProjectFocus {
    Sidebar,
    Tree,
}

/// The other pane.
pub open spec fn other_focus(f: ProjectFocus) -> ProjectFocus {
    match f {
        ProjectFocus::Sidebar => ProjectFocus::Tree,
        ProjectFocus::Tree => ProjectFocus::Sidebar,
    }
}

impl ProjectFocus {
    /// The pane `Tab` moves to.
    pub fn next(self) -> (f: Self)
        ensures
            f == other_focus(self),
    {
        match self {
            ProjectFocus::Sidebar => ProjectFocus::Tree,
            ProjectFocus::Tree => ProjectFocus::Sidebar,
        }
    }
}

/// How keys are read: navigating, or typing a draft.
#[derive(Debug)]
pub enum ScreenMode {
    Navigate,
    Insert(Draft),
}

/// Cursor and expanded parents in the task tree.
#[derive(Debug)]
pub struct TreeState {
    /// Ids of the tasks whose subtasks are shown.
    pub expanded: HashSet<u32>,
    /// Where the cursor sits.
    pub cursor: Option<TreeRowId>,
}

/// Identity of a row in the tree, by domain ids.
#[derive(Debug, Clone, Copy, PartialEq, Eq, Structural, Hash)]
pub enum TreeRowId {
    Task(u32),
    Subtask { task: u32, sub: u32 },
}

/// The project the interface opens on: the active project if it exists,
/// else the first project, else none.
pub open spec fn boot_project(w: Workspace) -> Option<usize> {
    match w.active_project_id {
        Some(id) if exists|i: int| first_project_at(w.projects@, id, i) => Some(
            (choose|i: int| first_project_at(w.projects@, id, i)) as usize,
        ),
        _ => if w.projects@.len() > 0 {
            Some(0usize)
        } else {
            None
        },
    }
}

/// The cursor that lands on the first task of project `i`, if it has one.
pub open spec fn first_task_cursor(w: Workspace, i: usize) -> Option<TreeRowId> {
    if w.projects@[i as int].tasks@.len() > 0 {
        Some(TreeRowId::Task(w.projects@[i as int].tasks@[0].id))
    } else {
        None
    }
}

impl ProjectScreen {
    /// The screen the interface opens on: the active project (or the first
    /// one), with the cursor on its first task, focus on the tree.
    pub fn new(workspace: &Workspace) -> (s: Self)
        ensures
            s.p_idx == boot_project(*workspace),
            s.sidebar_cursor == match s.p_idx {
                Some(i) => i,
                None => 0,
            },
            s.tree.expanded@ == Set::<u32>::empty(),
            s.tree.cursor == match s.p_idx {
                Some(i) => first_task_cursor(*workspace, i),
                None => None,
            },
            s.focus == ProjectFocus::Tree,
            s.mode is Navigate,
    {
        let by_active = match workspace.active_project_id {
            Some(id) => match workspace.get_project(id) {
                Ok(i) => Some(i),
                Err(_) => None,
            },
            None => None,
        };
        let p_idx = match by_active {
            Some(i) => Some(i),
            None => if workspace.projects.len() > 0 {
                Some(0)
            } else {
                None
            },
        };
        proof {
            if let Some(id) = workspace.active_project_id {
                if exists|i: int| first_project_at(workspace.projects@, id, i) {
                    let c = choose|i: int| first_project_at(workspace.projects@, id, i);
                    assert(by_active == Some(c as usize));
                }
            }
        }
        let initial_cursor = match p_idx {
            Some(i) => if workspace.projects[i].tasks.len() > 0 {
                Some(TreeRowId::Task(workspace.projects[i].tasks[0].id))
            } else {
                None
            },
            None => None,
        };
        ProjectScreen {
            p_idx,
            sidebar_cursor: match p_idx {
                Some(i) => i,
                None => 0,
            },
            tree: TreeState { expanded: HashSet::new(), cursor: initial_cursor },
            focus: ProjectFocus::Tree,
            mode: ScreenMode::Navigate,
        }
    }
}

impl App {
    /// The interface over `workspace`, before any key.
    pub fn new(workspace: Workspace) -> (a: Self)
        ensures
            a.workspace == workspace,
            a.screen.p_idx == boot_project(workspace),
            a.screen.sidebar_cursor == match a.screen.p_idx {
                Some(i) => i,
                None => 0,
            },
            a.screen.tree.expanded@ == Set::<u32>::empty(),
            a.screen.tree.cursor == match a.screen.p_idx {
                Some(i) => first_task_cursor(workspace, i),
                None => None,
            },
            a.screen.focus == ProjectFocus::Tree,
            a.screen.mode is Navigate,
            a.overlay is None,
            a.error is None,
            a.last_key is None,
            !a.should_quit,
            a@.wf(),
    {
        let screen = ProjectScreen::new(&workspace);
        App { workspace, screen, overlay: None, error: None, last_key: None, should_quit: false }
    }
}

} // verus!
