//! The visual state of the single native window, as the shell tracks it.
//!
//! The host runtime owns the real window for the process lifetime; the shell
//! never creates one, it only queries and mutates visibility, focus and
//! minimization. This module gives that state a plain value and the exact
//! transitions the shell performs on it.

use vstd::prelude::*;

verus! {

/// The tracked state of the window registered under the fixed name "main".
///
/// `open` says whether the window still exists; a window that has been
/// closed is neither visible, nor minimized, nor focused.
#[derive(Clone, Copy, PartialEq, Eq, Structural, Debug)]
pub struct WindowState {
    pub open: bool,
    pub visible: bool,
    pub minimized: bool,
    pub focused: bool,
}

impl WindowState {
    /// A closed window has no visual presence at all.
    pub open spec fn wf(self) -> bool {
        !self.open ==> !self.visible && !self.minimized && !self.focused
    }

    /// The state right after startup: the window exists and is shown.
    pub open spec fn spec_initial() -> WindowState {
        WindowState { open: true, visible: true, minimized: false, focused: true }
    }

    /// The state after the window is closed.
    pub open spec fn spec_closed() -> WindowState {
        WindowState { open: false, visible: false, minimized: false, focused: false }
    }

    /// The state after the window is minimized: still open, but in the
    /// minimized visual state and no longer holding input focus.
    pub open spec fn spec_minimized(self) -> WindowState {
        WindowState { minimized: true, focused: false, ..self }
    }

    /// The state after the window is shown and given input focus: restored
    /// from minimization, visible and focused.
    pub open spec fn spec_shown_focused(self) -> WindowState {
        WindowState { visible: true, minimized: false, focused: true, ..self }
    }

    /// The window state established at startup.
    pub fn initial() -> (w: WindowState)
        ensures
            w == WindowState::spec_initial(),
            w.wf(),
    {
        WindowState { open: true, visible: true, minimized: false, focused: true }
    }
}

} // verus!
