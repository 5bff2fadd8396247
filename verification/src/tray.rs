//! The tray icon's fixed description: a tooltip and a menu of exactly three
//! entries, built once at startup and never mutated afterwards.
//!
//! The host runtime draws the icon and the menu; the library only says what
//! they contain. Selecting a menu entry is an extension point the shell
//! leaves unwired, so no selection handling is modelled here.

use vstd::prelude::*;

verus! {

/// One entry of the tray menu: a fixed identifier, a human-readable label,
/// and whether the entry can be selected.
#[derive(Debug)]
pub struct MenuEntry {
    pub id: String,
    pub label: String,
    pub enabled: bool,
}

/// The identifier of the entry that opens the web application.
pub open spec fn spec_open_id() -> Seq<char> {
    "open"@
}

/// The label of the entry that opens the web application.
pub open spec fn spec_open_label() -> Seq<char> {
    "打开番茄钟"@
}

/// The identifier of the disabled separator entry.
pub open spec fn spec_separator_id() -> Seq<char> {
    "separator"@
}

/// The label of the disabled separator entry.
pub open spec fn spec_separator_label() -> Seq<char> {
    "-"@
}

/// The identifier of the entry that quits the application.
pub open spec fn spec_quit_id() -> Seq<char> {
    "quit"@
}

/// The label of the entry that quits the application.
pub open spec fn spec_quit_label() -> Seq<char> {
    "退出"@
}

/// The tray icon's tooltip text.
pub open spec fn spec_tooltip() -> Seq<char> {
    "番茄钟 Widget"@
}

/// `e` is the entry with the given identifier, label and enabled flag.
pub open spec fn entry_is(e: MenuEntry, id: Seq<char>, label: Seq<char>, enabled: bool) -> bool {
    e.id@ == id && e.label@ == label && e.enabled == enabled
}

/// `m` is the fixed tray menu: exactly three entries, in order an enabled
/// "open" entry, a disabled separator, and an enabled "quit" entry.
pub open spec fn is_fixed_menu(m: Seq<MenuEntry>) -> bool {
    &&& m.len() == 3
    &&& entry_is(m[0], spec_open_id(), spec_open_label(), true)
    &&& entry_is(m[1], spec_separator_id(), spec_separator_label(), false)
    &&& entry_is(m[2], spec_quit_id(), spec_quit_label(), true)
}

/// The tray icon as the shell describes it to the host runtime.
pub struct TrayState {
    pub tooltip: String,
    pub entries: Vec<MenuEntry>,
}

/// `a` and `b` describe the same tray icon, entry for entry.
pub open spec fn tray_unchanged(a: TrayState, b: TrayState) -> bool {
    a.tooltip@ == b.tooltip@ && a.entries@ == b.entries@
}

impl TrayState {
    /// The tooltip is the fixed text and the menu is the fixed three-entry
    /// menu.
    pub open spec fn wf(self) -> bool {
        self.tooltip@ == spec_tooltip() && is_fixed_menu(self.entries@)
    }

    /// Builds the tray description constructed once at startup.
    pub fn build() -> (t: TrayState)
        ensures
            t.wf(),
    {
        let mut entries: Vec<MenuEntry> = Vec::new();
        entries.push(MenuEntry { id: "open".to_owned(), label: "打开番茄钟".to_owned(), enabled: true });
        entries.push(MenuEntry { id: "separator".to_owned(), label: "-".to_owned(), enabled: false });
        entries.push(MenuEntry { id: "quit".to_owned(), label: "退出".to_owned(), enabled: true });
        TrayState { tooltip: "番茄钟 Widget".to_owned(), entries }
    }
}

/// The mouse button a tray-icon click was made with.
#[derive(Clone, Copy, PartialEq, Eq, Structural, Debug)]
pub enum MouseButton {
    Left,
    Right,
    Middle,
}

/// An event the host runtime delivers for the tray icon.
#[derive(Clone, Copy, PartialEq, Eq, Structural, Debug)]
pub enum TrayEvent {
    Click { button: MouseButton },
    DoubleClick { button: MouseButton },
    Enter,
    Move,
    Leave,
}

} // verus!
