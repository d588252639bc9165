//! `rtodo`: tasks organised by projects, with subtasks whose completion
//! drives the status of their parent task.

pub mod cli;
pub mod dispatch;
pub mod clock;
pub mod error;
pub mod laws;
pub mod models;
pub mod style;
pub mod text;
pub mod tui;
pub mod ui;
pub mod workspace;

pub use error::AppError;
