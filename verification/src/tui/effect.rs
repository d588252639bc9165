//! The state changes the interface can make.

use vstd::prelude::*;

use crate::tui::app::TreeRowId;
use crate::tui::draft::InsertTarget;
use crate::tui::overlay::Overlay;

verus! {

/// A state change, with everything `App::apply` needs to perform it.
#[derive(Debug)]
pub enum Effect {
    Quit,
    NextFocus,
    SelectNextProject,
    SelectPrevProject,
    SelectProject { p_idx: usize },
    TreeMoveDown,
    TreeMoveUp,
    /// `l`: expand a collapsed parent, drill into an expanded one.
    TreeExpandOrDescend,
    /// `h`: collapse a parent, or move from a subtask up to its task.
    TreeCollapseOrAscend,
    EnterInsert(InsertTarget),
    CancelInsert,
    DraftPush(char),
    DraftPop,
    OpenOverlay(Overlay),
    CloseOverlay,
    /// Sets the help-line error; every other effect clears it.
    ShowError(String),
    CreateProject { name: String },
    CreateTask { p_idx: usize, description: String },
    DeleteTask { p_idx: usize, task_id: u32 },
    CreateSubtask { p_idx: usize, task_id: u32, description: String },
    DeleteSubtask { p_idx: usize, task_id: u32, sub_id: u32 },
    /// Cycles a task's status, or toggles a subtask's completion.
    ToggleStatus(TreeRowId),
    /// Runs the effect held by the open confirm overlay.
    ConfirmYes,
}

} // verus!
