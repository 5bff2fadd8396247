//! The decision core of the desktop shell.
//!
//! The controller owns the tracked window state and the fixed tray
//! description. Each command from the hosted web content and each tray-icon
//! event is turned into the list of actions the host runtime must perform;
//! the caller performs them and discards their failures, so the controller
//! never waits on an outcome.

use vstd::prelude::*;
use crate::tray::{MouseButton, TrayEvent, TrayState, tray_unchanged};
use crate::window::WindowState;

verus! {

/// A command the hosted web content can invoke. No command carries a
/// parameter and none returns a payload.
#[derive(Clone, Copy, PartialEq, Eq, Structural, Debug)]
pub enum Command {
    CloseWindow,
    MinimizeWindow,
    OpenWebApp,
}

/// A native action the host runtime is asked to perform. Every action is
/// fire-and-forget: its failure is discarded.
#[derive(Debug)]
pub enum HostAction {
    /// Close the main window.
    CloseWindow,
    /// Minimize the main window.
    MinimizeWindow,
    /// Make the main window visible.
    ShowWindow,
    /// Move input focus to the main window.
    FocusWindow,
    /// Ask the operating system to open `url` in the default browser.
    SpawnBrowser { url: String },
}

/// Why startup aborted the process.
#[derive(Clone, Copy, PartialEq, Eq, Structural, Debug)]
pub enum StartupError {
    /// No window is registered under the fixed name "main".
    MainWindowMissing,
}

/// The web address the shell hosts and opens externally.
pub open spec fn spec_web_app_url() -> Seq<char> {
    "http://localhost:3000"@
}

/// The fixed name the main window is registered under.
pub open spec fn spec_main_window_label() -> Seq<char> {
    "main"@
}

/// Returns the web address the shell hosts and opens externally.
pub fn web_app_url() -> (s: String)
    ensures
        s@ == spec_web_app_url(),
{
    "http://localhost:3000".to_owned()
}

/// Returns the fixed name the main window is registered under.
pub fn main_window_label() -> (s: String)
    ensures
        s@ == spec_main_window_label(),
{
    "main".to_owned()
}

impl StartupError {
    /// The diagnostic printed when startup aborts the process.
    pub fn message(&self) -> (s: String)
        ensures
            s@ == "no window is registered under the name \"main\""@,
    {
        "no window is registered under the name \"main\"".to_owned()
    }
}

/// The shell's whole state: the tracked window and the tray description.
pub struct Controller {
    pub window: WindowState,
    pub tray: TrayState,
}

impl Controller {
    /// The window state is consistent and the tray holds the fixed menu.
    pub open spec fn wf(self) -> bool {
        self.window.wf() && self.tray.wf()
    }

    /// The startup sequence, run once at process launch. The caller reports
    /// whether a window is registered under the name "main"; without one
    /// there is no recovery and the process must abort with the error's
    /// diagnostic.
    pub fn startup(main_window_exists: bool) -> (r: Result<Controller, StartupError>)
        ensures
            main_window_exists <==> r is Ok,
            r matches Ok(c) ==> c.wf() && c.window == WindowState::spec_initial(),
            r matches Err(e) ==> e == StartupError::MainWindowMissing,
    {
        if main_window_exists {
            Ok(Controller { window: WindowState::initial(), tray: TrayState::build() })
        } else {
            Err(StartupError::MainWindowMissing)
        }
    }

    /// Routes one command from the hosted web content, returning the native
    /// actions to perform, in order.
    ///
    /// Closing an open window leaves it no longer open; minimizing leaves it
    /// open in the minimized visual state; either command without a window
    /// is a harmless no-op. Opening the web application always asks for
    /// exactly one browser spawn at the fixed address, window or not, and
    /// repeated invocations each ask again. The tray is never touched.
    pub fn handle_command(&mut self, cmd: Command) -> (actions: Vec<HostAction>)
        requires
            old(self).wf(),
        ensures
            final(self).wf(),
            tray_unchanged(old(self).tray, final(self).tray),
            cmd == Command::CloseWindow && old(self).window.open ==> {
                &&& final(self).window == WindowState::spec_closed()
                &&& actions@.len() == 1
                &&& actions@[0] is CloseWindow
            },
            cmd == Command::MinimizeWindow && old(self).window.open ==> {
                &&& final(self).window == old(self).window.spec_minimized()
                &&& final(self).window.open
                &&& actions@.len() == 1
                &&& actions@[0] is MinimizeWindow
            },
            (cmd == Command::CloseWindow || cmd == Command::MinimizeWindow)
                && !old(self).window.open ==> {
                &&& final(self).window == old(self).window
                &&& actions@.len() == 0
            },
            cmd == Command::OpenWebApp ==> {
                &&& final(self).window == old(self).window
                &&& actions@.len() == 1
                &&& actions@[0] matches HostAction::SpawnBrowser { url } && url@ == spec_web_app_url()
            },
    {
        let mut actions: Vec<HostAction> = Vec::new();
        match cmd {
            Command::CloseWindow => {
                if self.window.open {
                    self.window = WindowState {
                        open: false,
                        visible: false,
                        minimized: false,
                        focused: false,
                    };
                    actions.push(HostAction::CloseWindow);
                }
            },
            Command::MinimizeWindow => {
                if self.window.open {
                    self.window = WindowState { minimized: true, focused: false, ..self.window };
                    actions.push(HostAction::MinimizeWindow);
                }
            },
            Command::OpenWebApp => {
                actions.push(HostAction::SpawnBrowser { url: web_app_url() });
            },
        }
        actions
    }

    /// Routes one tray-icon event, returning the native actions to perform,
    /// in order.
    ///
    /// A click with the primary button while the window exists shows the
    /// window and moves input focus to it; the same click without a window,
    /// and every other event, is a no-op. The tray is never touched.
    pub fn handle_tray_event(&mut self, event: TrayEvent) -> (actions: Vec<HostAction>)
        requires
            old(self).wf(),
        ensures
            final(self).wf(),
            tray_unchanged(old(self).tray, final(self).tray),
            event == (TrayEvent::Click { button: MouseButton::Left }) && old(self).window.open
                ==> {
                &&& final(self).window == old(self).window.spec_shown_focused()
                &&& final(self).window.open && final(self).window.visible && final(self).window.focused
                &&& actions@.len() == 2
                &&& actions@[0] is ShowWindow
                &&& actions@[1] is FocusWindow
            },
            event != (TrayEvent::Click { button: MouseButton::Left }) || !old(self).window.open
                ==> {
                &&& final(self).window == old(self).window
                &&& actions@.len() == 0
            },
    {
        let mut actions: Vec<HostAction> = Vec::new();
        if let TrayEvent::Click { button: MouseButton::Left } = event {
            if self.window.open {
                self.window = WindowState {
                    visible: true,
                    minimized: false,
                    focused: true,
                    ..self.window
                };
                actions.push(HostAction::ShowWindow);
                actions.push(HostAction::FocusWindow);
            }
        }
        actions
    }
}

} // verus!

