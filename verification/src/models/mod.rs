//! Core domain types: projects, tasks, subtasks, statuses and priorities.

pub mod priority;
pub mod project;
pub mod status;
pub mod subtask;
pub mod task;

pub use priority::Priority;
pub use project::Project;
pub use status::Status;
pub use subtask::Subtask;
pub use task::Task;
