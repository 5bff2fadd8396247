use desktop_widget::controller::{Command, Controller, HostAction, StartupError};
use desktop_widget::controller::{main_window_label, web_app_url};
use desktop_widget::tray::{MouseButton, TrayEvent, TrayState};

fn started() -> Controller {
    Controller::startup(true).expect("startup with a main window must succeed")
}

#[test]
fn startup_with_main_window_succeeds() {
    let c = started();
    assert!(c.window.open);
    assert!(c.window.visible);
    assert!(!c.window.minimized);
    assert!(c.window.focused);
}

#[test]
fn startup_without_main_window_fails() {
    let r = Controller::startup(false);
    match r {
        Ok(_) => panic!("startup without a main window must fail"),
        Err(e) => {
            assert_eq!(e, StartupError::MainWindowMissing);
            assert_eq!(e.message(), "no window is registered under the name \"main\"");
        }
    }
}

#[test]
fn close_window_closes_open_window() {
    let mut c = started();
    let actions = c.handle_command(Command::CloseWindow);
    assert_eq!(actions.len(), 1);
    assert!(matches!(actions[0], HostAction::CloseWindow));
    assert!(!c.window.open);
    assert!(!c.window.visible);
    assert!(!c.window.minimized);
    assert!(!c.window.focused);
}

#[test]
fn close_window_without_window_is_noop() {
    let mut c = started();
    c.handle_command(Command::CloseWindow);
    let actions = c.handle_command(Command::CloseWindow);
    assert!(actions.is_empty());
    assert!(!c.window.open);
}

#[test]
fn minimize_window_keeps_window_open() {
    let mut c = started();
    let actions = c.handle_command(Command::MinimizeWindow);
    assert_eq!(actions.len(), 1);
    assert!(matches!(actions[0], HostAction::MinimizeWindow));
    assert!(c.window.open);
    assert!(c.window.minimized);
}

#[test]
fn minimize_window_without_window_is_noop() {
    let mut c = started();
    c.handle_command(Command::CloseWindow);
    let actions = c.handle_command(Command::MinimizeWindow);
    assert!(actions.is_empty());
    assert!(!c.window.open);
    assert!(!c.window.minimized);
}

#[test]
fn open_web_app_spawns_exactly_one_browser_request() {
    let mut c = started();
    let actions = c.handle_command(Command::OpenWebApp);
    assert_eq!(actions.len(), 1);
    match &actions[0] {
        HostAction::SpawnBrowser { url } => assert_eq!(url, "http://localhost:3000"),
        other => panic!("expected a browser spawn, got {:?}", other),
    }
}

#[test]
fn open_web_app_spawns_again_on_each_invocation() {
    let mut c = started();
    let first = c.handle_command(Command::OpenWebApp);
    let second = c.handle_command(Command::OpenWebApp);
    assert_eq!(first.len(), 1);
    assert_eq!(second.len(), 1);
    assert!(matches!(second[0], HostAction::SpawnBrowser { .. }));
}

#[test]
fn open_web_app_spawns_even_without_window() {
    let mut c = started();
    c.handle_command(Command::CloseWindow);
    let actions = c.handle_command(Command::OpenWebApp);
    assert_eq!(actions.len(), 1);
    assert!(matches!(actions[0], HostAction::SpawnBrowser { .. }));
    assert!(!c.window.open);
}

#[test]
fn tray_left_click_shows_and_focuses() {
    let mut c = started();
    c.handle_command(Command::MinimizeWindow);
    let actions = c.handle_tray_event(TrayEvent::Click { button: MouseButton::Left });
    assert_eq!(actions.len(), 2);
    assert!(matches!(actions[0], HostAction::ShowWindow));
    assert!(matches!(actions[1], HostAction::FocusWindow));
    assert!(c.window.open);
    assert!(c.window.visible);
    assert!(c.window.focused);
    assert!(!c.window.minimized);
}

#[test]
fn tray_left_click_without_window_is_noop() {
    let mut c = started();
    c.handle_command(Command::CloseWindow);
    let actions = c.handle_tray_event(TrayEvent::Click { button: MouseButton::Left });
    assert!(actions.is_empty());
    assert!(!c.window.open);
}

#[test]
fn tray_click_with_other_buttons_is_ignored() {
    let mut c = started();
    c.handle_command(Command::MinimizeWindow);
    let before = c.window;
    let right = c.handle_tray_event(TrayEvent::Click { button: MouseButton::Right });
    let middle = c.handle_tray_event(TrayEvent::Click { button: MouseButton::Middle });
    assert!(right.is_empty());
    assert!(middle.is_empty());
    assert_eq!(c.window, before);
}

#[test]
fn tray_non_click_events_are_ignored() {
    let mut c = started();
    let before = c.window;
    for event in [
        TrayEvent::DoubleClick { button: MouseButton::Left },
        TrayEvent::Enter,
        TrayEvent::Move,
        TrayEvent::Leave,
    ] {
        let actions = c.handle_tray_event(event);
        assert!(actions.is_empty());
    }
    assert_eq!(c.window, before);
}

#[test]
fn tray_menu_has_three_fixed_entries() {
    let tray = TrayState::build();
    assert_eq!(tray.entries.len(), 3);

    assert_eq!(tray.entries[0].id, "open");
    assert_eq!(tray.entries[0].label, "打开番茄钟");
    assert!(tray.entries[0].enabled);

    assert_eq!(tray.entries[1].id, "separator");
    assert_eq!(tray.entries[1].label, "-");
    assert!(!tray.entries[1].enabled);

    assert_eq!(tray.entries[2].id, "quit");
    assert_eq!(tray.entries[2].label, "退出");
    assert!(tray.entries[2].enabled);
}

#[test]
fn tray_tooltip_is_fixed() {
    let tray = TrayState::build();
    assert_eq!(tray.tooltip, "番茄钟 Widget");
}

#[test]
fn tray_menu_unchanged_by_commands_and_events() {
    let mut c = started();
    c.handle_command(Command::MinimizeWindow);
    c.handle_tray_event(TrayEvent::Click { button: MouseButton::Left });
    c.handle_command(Command::OpenWebApp);
    c.handle_command(Command::CloseWindow);
    assert_eq!(c.tray.entries.len(), 3);
    assert!(c.tray.entries[0].enabled);
    assert!(!c.tray.entries[1].enabled);
    assert!(c.tray.entries[2].enabled);
    assert_eq!(c.tray.entries[0].id, "open");
    assert_eq!(c.tray.entries[1].id, "separator");
    assert_eq!(c.tray.entries[2].id, "quit");
    assert_eq!(c.tray.tooltip, "番茄钟 Widget");
}

#[test]
fn fixed_names_and_addresses() {
    assert_eq!(web_app_url(), "http://localhost:3000");
    assert_eq!(main_window_label(), "main");
}
