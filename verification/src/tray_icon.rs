//! Actions chosen from the tray icon's menu.
//!
//! The tray icon itself is host-side user interface; the library only
//! understands the action the user picked there.

use vstd::prelude::*;

verus! {

/// What the user asked for through the tray menu.
#[derive(Clone, Copy)]
pub enum TrayAction {
    /// Nothing pending.
    Idle,
    /// Switch the input method on or off.
    Toggle,
    /// Reload the settings and the user dictionary.
    Reload,
}

} // verus!
