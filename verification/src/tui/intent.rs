//! What a key means, given the focus, the mode and the overlay.

use vstd::prelude::*;

use crate::tui::app::{App, Key, ProjectFocus, ScreenMode};

verus! {

/// What the user meant by a key.
#[derive(Debug, Clone, Copy, PartialEq, Eq, Structural)]
pub enum Intent {
    Nav(NavIntent),
    Edit(EditIntent),
    Confirm(ConfirmIntent),
    App(AppIntent),
}

/// Moving around.
#[derive(Debug, Clone, Copy, PartialEq, Eq, Structural)]
pub enum NavIntent {
    Up,
    Down,
    /// `l`: drill into or expand.
    Right,
    /// `h`: leave, collapse, or jump up.
    Left,
    /// `Tab`.
    NextFocus,
}

/// Editing a draft.
#[derive(Debug, Clone, Copy, PartialEq, Eq, Structural)]
pub enum EditIntent {
    /// Begin an insert; the target is worked out from the cursor.
    Start(InsertKind),
    Cancel,
    Submit,
    Char(char),
    Backspace,
}

/// The kind of insert a key asked for.
#[derive(Debug, Clone, Copy, PartialEq, Eq, Structural)]
pub enum InsertKind {
    /// `i`: a sibling at the cursor's level.
    Sibling,
    /// `I`: a child of the cursor (only on a task).
    Child,
    /// Sidebar `i`: a new project.
    Project,
}

/// Answering the confirm overlay.
#[derive(Debug, Clone, Copy, PartialEq, Eq, Structural)]
pub enum ConfirmIntent {
    Yes,
    No,
}

/// Whole-application requests.
#[derive(Debug, Clone, Copy, PartialEq, Eq, Structural)]
pub enum AppIntent {
    Quit,
    /// `dd`.
    RequestDelete,
    /// Space: toggle status or completion at the cursor.
    ToggleStatus,
}

/// The meaning of `key`: with the overlay open, `y`/`Y` confirms and any
/// other key declines; in insert mode, keys edit the draft; otherwise keys
/// navigate, with `i`, `I`, space and `dd` depending on the focused pane.
pub open spec fn keymap_spec(
    overlay_open: bool,
    inserting: bool,
    focus: ProjectFocus,
    last_key: Option<Key>,
    key: Key,
) -> Option<Intent> {
    if overlay_open {
        Some(
            match key {
                Key::Char('y') | Key::Char('Y') => Intent::Confirm(ConfirmIntent::Yes),
                _ => Intent::Confirm(ConfirmIntent::No),
            },
        )
    } else if inserting {
        match key {
            Key::Esc => Some(Intent::Edit(EditIntent::Cancel)),
            Key::Enter => Some(Intent::Edit(EditIntent::Submit)),
            Key::Backspace => Some(Intent::Edit(EditIntent::Backspace)),
            Key::Char(c) => Some(Intent::Edit(EditIntent::Char(c))),
            _ => None,
        }
    } else {
        match (focus, key) {
            (_, Key::Char('q')) => Some(Intent::App(AppIntent::Quit)),
            (_, Key::Tab) => Some(Intent::Nav(NavIntent::NextFocus)),
            (_, Key::Char('j')) | (_, Key::Down) => Some(Intent::Nav(NavIntent::Down)),
            (_, Key::Char('k')) | (_, Key::Up) => Some(Intent::Nav(NavIntent::Up)),
            (_, Key::Char('l')) | (_, Key::Right) => Some(Intent::Nav(NavIntent::Right)),
            (_, Key::Char('h')) | (_, Key::Left) => Some(Intent::Nav(NavIntent::Left)),
            (ProjectFocus::Sidebar, Key::Char('i')) => Some(
                Intent::Edit(EditIntent::Start(InsertKind::Project)),
            ),
            (ProjectFocus::Sidebar, Key::Enter) => Some(Intent::Nav(NavIntent::Right)),
            (ProjectFocus::Tree, Key::Char('i')) => Some(
                Intent::Edit(EditIntent::Start(InsertKind::Sibling)),
            ),
            (ProjectFocus::Tree, Key::Char('I')) => Some(
                Intent::Edit(EditIntent::Start(InsertKind::Child)),
            ),
            (ProjectFocus::Tree, Key::Char(' ')) => Some(Intent::App(AppIntent::ToggleStatus)),
            (ProjectFocus::Tree, Key::Char('d')) => if last_key == Some(Key::Char('d')) {
                Some(Intent::App(AppIntent::RequestDelete))
            } else {
                None
            },
            _ => None,
        }
    }
}

/// Translates a key into an intent (see `keymap_spec`).
pub fn keymap(app: &App, key: Key) -> (r: Option<Intent>)
    ensures
        r == keymap_spec(
            app.overlay is Some,
            app.screen.mode is Insert,
            app.screen.focus,
            app.last_key,
            key,
        ),
{
    if app.overlay.is_some() {
        return Some(
            match key {
                Key::Char('y') | Key::Char('Y') => Intent::Confirm(ConfirmIntent::Yes),
                _ => Intent::Confirm(ConfirmIntent::No),
            },
        );
    }
    if let ScreenMode::Insert(_) = app.screen.mode {
        return match key {
            Key::Esc => Some(Intent::Edit(EditIntent::Cancel)),
            Key::Enter => Some(Intent::Edit(EditIntent::Submit)),
            Key::Backspace => Some(Intent::Edit(EditIntent::Backspace)),
            Key::Char(c) => Some(Intent::Edit(EditIntent::Char(c))),
            _ => None,
        };
    }
    match (app.screen.focus, key) {
        (_, Key::Char('q')) => Some(Intent::App(AppIntent::Quit)),
        (_, Key::Tab) => Some(Intent::Nav(NavIntent::NextFocus)),
        (_, Key::Char('j')) | (_, Key::Down) => Some(Intent::Nav(NavIntent::Down)),
        (_, Key::Char('k')) | (_, Key::Up) => Some(Intent::Nav(NavIntent::Up)),
        (_, Key::Char('l')) | (_, Key::Right) => Some(Intent::Nav(NavIntent::Right)),
        (_, Key::Char('h')) | (_, Key::Left) => Some(Intent::Nav(NavIntent::Left)),
        (ProjectFocus::Sidebar, Key::Char('i')) => Some(
            Intent::Edit(EditIntent::Start(InsertKind::Project)),
        ),
        (ProjectFocus::Sidebar, Key::Enter) => Some(Intent::Nav(NavIntent::Right)),
        (ProjectFocus::Tree, Key::Char('i')) => Some(
            Intent::Edit(EditIntent::Start(InsertKind::Sibling)),
        ),
        (ProjectFocus::Tree, Key::Char('I')) => Some(
            Intent::Edit(EditIntent::Start(InsertKind::Child)),
        ),
        (ProjectFocus::Tree, Key::Char(' ')) => Some(Intent::App(AppIntent::ToggleStatus)),
        (ProjectFocus::Tree, Key::Char('d')) => {
            if app.last_key == Some(Key::Char('d')) {
                Some(Intent::App(AppIntent::RequestDelete))
            } else {
                None
            }
        },
        _ => None,
    }
}

/// The last key to remember after `key` was read and meant `intent`: none
/// after `dd` fired or the overlay was answered (so the next key does not
/// complete a chord), else `key`.
pub open spec fn next_last_key_spec(intent: Option<Intent>, key: Key) -> Option<Key> {
    match intent {
        Some(Intent::App(AppIntent::RequestDelete)) | Some(Intent::Confirm(_)) => None,
        _ => Some(key),
    }
}

/// The last key to remember after a key press (see `next_last_key_spec`).
pub fn next_last_key(intent: &Option<Intent>, key: Key) -> (r: Option<Key>)
    ensures
        r == next_last_key_spec(*intent, key),
{
    match intent {
        Some(Intent::App(AppIntent::RequestDelete)) | Some(Intent::Confirm(_)) => None,
        _ => Some(key),
    }
}

} // verus!
