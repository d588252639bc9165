//! The terminal user interface, minus the terminal.
//!
//! - [`app`]: runtime state (`App`, `ProjectScreen`, `TreeState`, ...).
//! - [`intent`]: what a key means (`Key -> Option<Intent>`).
//! - [`resolve`]: what an intent does (`Intent -> Vec<Effect>`).
//! - [`apply`]: the only place where state changes (`App::apply`).
//! - [`tree`], [`render`], [`sidebar`]: what is painted, as plain values.
//!
//! Reading keys, drawing and saving happen outside the library.

pub mod app;
pub mod apply;
pub mod draft;
pub mod effect;
pub mod intent;
pub mod overlay;
pub mod render;
pub mod resolve;
pub mod sidebar;
pub mod tree;
