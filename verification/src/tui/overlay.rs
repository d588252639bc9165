//! Modal layer painted on top of the screen.

use vstd::prelude::*;

use crate::tui::effect::Effect;

verus! {

/// A modal layer.
#[derive(Debug)]
pub enum Overlay {
    Confirm(ConfirmOverlay),
}

/// A yes/no question; `on_confirm` runs on yes.
#[derive(Debug)]
pub struct ConfirmOverlay {
    pub prompt: String,
    pub on_confirm: Box<Effect>,
}

} // verus!
