//! Single-subscriber event dispatch: the OS-integration adapters (tray,
//! hotkey, window) produce [`AppEvent`]s, and the dispatcher applies each to
//! the window controller and answers with the command the embedder must
//! perform.  All events arrive on the framework's one UI thread, never
//! concurrently.

use vstd::prelude::*;

use crate::shortcut::HotkeyState;
use crate::tray::TrayAction;
use crate::window::{WindowCommand, WindowController, WindowId, WindowState};

verus! {

/// An event delivered by one of the OS-integration adapters.
#[derive(Clone, Copy, Debug, PartialEq, Eq, Structural)]
pub enum AppEvent {
    /// Toggle the main window (tray menu "show_hide", tray icon left-click
    /// release, or the global shortcut's key press).
    ToggleRequested,
    /// Terminate the process (tray menu "quit").
    QuitRequested,
    /// Open the settings view.
    SettingsRequested,
    /// A window's close button was pressed.
    CloseRequested(WindowId),
}

/// What the dispatcher tells the embedder to do.  For a close request the
/// command comes with the standing rule that the default destroy is
/// suppressed first.
#[derive(Clone, Copy, Debug, PartialEq, Eq, Structural)]
pub enum AppCommand {
    /// Apply a window command to the given window.
    OnWindow(WindowId, WindowCommand),
    /// Exit the process with the given code.
    ExitProcess(i32),
    /// Nothing to perform.
    NoCommand,
}

/// The shell's dispatch state: the window controller the events act on.
#[derive(Clone, Copy, Debug, PartialEq, Eq, Structural)]
pub struct AppShell {
    pub windows: WindowController,
}

impl AppShell {
    pub open spec fn wf(self) -> bool {
        self.windows.wf()
    }

    /// Shell state right after the framework created the main window.
    pub fn at_launch(main_visible: bool) -> (s: AppShell)
        ensures
            s.wf(),
            s.windows.settings is Nonexistent,
            s.windows.main == (if main_visible {
                WindowState::Visible
            } else {
                WindowState::Hidden
            }),
    {
        AppShell { windows: WindowController::at_launch(main_visible) }
    }

    /// The dispatch rule, one event at a time.
    pub open spec fn spec_handle(self, e: AppEvent) -> (AppShell, AppCommand) {
        match e {
            AppEvent::ToggleRequested => {
                let (w, cmd) = self.windows.spec_toggle_main();
                (
                    AppShell { windows: w },
                    match cmd {
                        WindowCommand::DoNothing => AppCommand::NoCommand,
                        c => AppCommand::OnWindow(WindowId::MainWindow, c),
                    },
                )
            },
            AppEvent::QuitRequested => (self, AppCommand::ExitProcess(0)),
            AppEvent::SettingsRequested => {
                let (w, cmd) = self.windows.spec_show_settings();
                (AppShell { windows: w }, AppCommand::OnWindow(WindowId::SettingsWindow, cmd))
            },
            AppEvent::CloseRequested(which) => {
                let (w, _r) = self.windows.spec_close_requested(which);
                (AppShell { windows: w }, AppCommand::OnWindow(which, WindowCommand::HideWindow))
            },
        }
    }

    /// Apply one event.  A close request only arrives for a window that
    /// exists (its handler was installed at creation).  Quitting always exits
    /// with code 0.
    pub fn handle_event(&mut self, e: AppEvent) -> (c: AppCommand)
        requires
            old(self).wf(),
            e matches AppEvent::CloseRequested(which)
                ==> !(old(self).windows.window_state(which) is Nonexistent),
        ensures
            final(self).wf(),
            (*final(self), c) == old(self).spec_handle(e),
            e == AppEvent::QuitRequested ==> c == AppCommand::ExitProcess(0i32)
                && *final(self) == *old(self),
    {
        match e {
            AppEvent::ToggleRequested => {
                let cmd = self.windows.toggle_window_visibility();
                match cmd {
                    WindowCommand::DoNothing => AppCommand::NoCommand,
                    c => AppCommand::OnWindow(WindowId::MainWindow, c),
                }
            },
            AppEvent::QuitRequested => AppCommand::ExitProcess(0),
            AppEvent::SettingsRequested => {
                let cmd = self.windows.show_settings_window();
                AppCommand::OnWindow(WindowId::SettingsWindow, cmd)
            },
            AppEvent::CloseRequested(which) => {
                let _r = self.windows.handle_close_requested(which);
                AppCommand::OnWindow(which, WindowCommand::HideWindow)
            },
        }
    }
}

/// Translate a tray decision into a dispatcher event.
pub fn app_event_for_tray_action(a: TrayAction) -> (r: Option<AppEvent>)
    ensures
        a is ToggleMainWindow ==> r == Some(AppEvent::ToggleRequested),
        a is QuitApp ==> r == Some(AppEvent::QuitRequested),
        a is NoTrayAction ==> r is None,
{
    match a {
        TrayAction::ToggleMainWindow => Option::Some(AppEvent::ToggleRequested),
        TrayAction::QuitApp => Option::Some(AppEvent::QuitRequested),
        TrayAction::NoTrayAction => Option::None,
    }
}

/// Translate a delivered hotkey event into a dispatcher event: only the
/// key-press transition toggles.
pub fn app_event_for_hotkey(state: HotkeyState) -> (r: Option<AppEvent>)
    ensures
        state is KeyPressed ==> r == Some(AppEvent::ToggleRequested),
        state is KeyReleased ==> r is None,
{
    if crate::shortcut::hotkey_event_should_toggle(state) {
        Option::Some(AppEvent::ToggleRequested)
    } else {
        Option::None
    }
}

} // verus!
