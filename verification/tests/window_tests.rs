use pinote::events::{AppCommand, AppEvent, AppShell};
use pinote::window::{
    toggle_command_for_query, visibility_from_query, WindowCommand, WindowController, WindowId,
    WindowState,
};

#[test]
fn toggle_hides_then_shows_and_focuses() {
    let mut c = WindowController::at_launch(true);
    assert_eq!(c.main, WindowState::Visible);

    let cmd = c.toggle_window_visibility();
    assert_eq!(cmd, WindowCommand::HideWindow);
    assert_eq!(c.main, WindowState::Hidden);
    assert!(!c.main_focused);

    let cmd = c.toggle_window_visibility();
    assert_eq!(cmd, WindowCommand::ShowAndFocusWindow);
    assert_eq!(c.main, WindowState::Visible);
    assert!(c.main_focused);
}

#[test]
fn show_settings_twice_creates_only_once() {
    let mut c = WindowController::at_launch(true);
    assert_eq!(c.settings, WindowState::Nonexistent);

    let first = c.show_settings_window();
    assert_eq!(first, WindowCommand::CreateSettingsWindow);
    assert_eq!(c.settings, WindowState::Visible);

    let second = c.show_settings_window();
    assert_eq!(second, WindowCommand::ShowAndFocusWindow);
    assert_ne!(second, WindowCommand::CreateSettingsWindow);
    assert_eq!(c.settings, WindowState::Visible);
    assert!(c.settings_focused);
}

#[test]
fn close_request_hides_but_never_destroys() {
    let mut c = WindowController::at_launch(true);
    let r = c.handle_close_requested(WindowId::MainWindow);
    assert!(r.suppress_destroy);
    assert!(r.hide);
    assert_eq!(c.main, WindowState::Hidden);
    assert_ne!(c.main, WindowState::Nonexistent);

    // The window is still there: it can be shown again.
    let cmd = c.toggle_window_visibility();
    assert_eq!(cmd, WindowCommand::ShowAndFocusWindow);
    assert_eq!(c.main, WindowState::Visible);
}

#[test]
fn settings_close_request_hides_and_reshow_reuses() {
    let mut c = WindowController::at_launch(false);
    assert_eq!(c.show_settings_window(), WindowCommand::CreateSettingsWindow);
    let r = c.handle_close_requested(WindowId::SettingsWindow);
    assert!(r.suppress_destroy && r.hide);
    assert_eq!(c.settings, WindowState::Hidden);
    // Reshowing focuses the existing window, no second creation.
    assert_eq!(c.show_settings_window(), WindowCommand::ShowAndFocusWindow);
}

#[test]
fn toggle_on_missing_window_is_a_no_op() {
    let mut c = WindowController::at_launch(true);
    c.main = WindowState::Nonexistent;
    c.main_focused = false;
    let cmd = c.toggle_window_visibility();
    assert_eq!(cmd, WindowCommand::DoNothing);
    assert_eq!(c.main, WindowState::Nonexistent);
}

#[test]
fn failed_visibility_query_counts_as_hidden() {
    assert!(!visibility_from_query(None));
    assert!(!visibility_from_query(Some(false)));
    assert!(visibility_from_query(Some(true)));

    assert_eq!(toggle_command_for_query(false, Some(true)), WindowCommand::DoNothing);
    assert_eq!(toggle_command_for_query(true, Some(true)), WindowCommand::HideWindow);
    assert_eq!(toggle_command_for_query(true, Some(false)), WindowCommand::ShowAndFocusWindow);
    assert_eq!(toggle_command_for_query(true, None), WindowCommand::ShowAndFocusWindow);
}

#[test]
fn dispatcher_routes_events() {
    let mut shell = AppShell::at_launch(true);

    let c = shell.handle_event(AppEvent::ToggleRequested);
    assert_eq!(c, AppCommand::OnWindow(WindowId::MainWindow, WindowCommand::HideWindow));

    let c = shell.handle_event(AppEvent::ToggleRequested);
    assert_eq!(
        c,
        AppCommand::OnWindow(WindowId::MainWindow, WindowCommand::ShowAndFocusWindow)
    );

    let c = shell.handle_event(AppEvent::SettingsRequested);
    assert_eq!(
        c,
        AppCommand::OnWindow(WindowId::SettingsWindow, WindowCommand::CreateSettingsWindow)
    );

    let c = shell.handle_event(AppEvent::CloseRequested(WindowId::SettingsWindow));
    assert_eq!(c, AppCommand::OnWindow(WindowId::SettingsWindow, WindowCommand::HideWindow));
    assert_eq!(shell.windows.settings, WindowState::Hidden);

    let c = shell.handle_event(AppEvent::QuitRequested);
    assert_eq!(c, AppCommand::ExitProcess(0));
}
