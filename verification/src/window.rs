//! Window controller: visibility toggling for the main window, lazy reuse of
//! the settings window, and close-request interception that hides a window
//! instead of destroying it.

use vstd::prelude::*;

verus! {

/// Lifecycle of one top-level window, as far as this shell observes it.
#[derive(Clone, Copy, Debug, PartialEq, Eq, Structural)]
pub enum WindowState {
    /// The window has not been created.
    Nonexistent,
    /// The window exists but is not shown.
    Hidden,
    /// The window is shown.
    Visible,
}

/// An order for the host windowing layer.
#[derive(Clone, Copy, Debug, PartialEq, Eq, Structural)]
pub enum WindowCommand {
    /// Hide the window.
    HideWindow,
    /// Show the window and grant it input focus.
    ShowAndFocusWindow,
    /// Build the settings window (shown and focused) with its fixed view.
    CreateSettingsWindow,
    /// Nothing to do.
    DoNothing,
}

/// Which of the two logical windows an event or command concerns.
#[derive(Clone, Copy, Debug, PartialEq, Eq, Structural)]
pub enum WindowId {
    MainWindow,
    SettingsWindow,
}

/// Reply to a window's close request.
#[derive(Clone, Copy, Debug, PartialEq, Eq, Structural)]
pub struct CloseResponse {
    /// The default destroy-on-close must be suppressed.
    pub suppress_destroy: bool,
    /// The window is to be hidden instead.
    pub hide: bool,
}

/// The controller's model of both windows.
///
/// The main window is created by the framework at launch; the settings window
/// is created lazily on first request.  Because every close request is
/// intercepted, neither window ever returns to `Nonexistent` while the
/// process runs.
#[derive(Clone, Copy, Debug, PartialEq, Eq, Structural)]
pub struct WindowController {
    pub main: WindowState,
    pub main_focused: bool,
    pub settings: WindowState,
    pub settings_focused: bool,
}

impl WindowController {
    /// A window that is not visible holds no input focus.
    pub open spec fn wf(self) -> bool {
        &&& !(self.main is Visible) ==> !self.main_focused
        &&& !(self.settings is Visible) ==> !self.settings_focused
    }

    pub open spec fn window_state(self, which: WindowId) -> WindowState {
        match which {
            WindowId::MainWindow => self.main,
            WindowId::SettingsWindow => self.settings,
        }
    }

    /// State at launch: the framework has created the main window; the
    /// settings window does not exist yet.
    pub fn at_launch(main_visible: bool) -> (c: WindowController)
        ensures
            c.wf(),
            c.main == (if main_visible {
                WindowState::Visible
            } else {
                WindowState::Hidden
            }),
            !c.main_focused,
            c.settings is Nonexistent,
    {
        WindowController {
            main: if main_visible {
                WindowState::Visible
            } else {
                WindowState::Hidden
            },
            main_focused: false,
            settings: WindowState::Nonexistent,
            settings_focused: false,
        }
    }

    /// The toggle transition on the main window: a visible window is hidden;
    /// a hidden one is shown and focused; a missing one is left alone.
    pub open spec fn spec_toggle_main(self) -> (WindowController, WindowCommand) {
        match self.main {
            WindowState::Nonexistent => (self, WindowCommand::DoNothing),
            WindowState::Visible => (
                (WindowController {
                    main: WindowState::Hidden,
                    main_focused: false,
                    settings: self.settings,
                    settings_focused: self.settings_focused,
                }),
                WindowCommand::HideWindow,
            ),
            WindowState::Hidden => (
                (WindowController {
                    main: WindowState::Visible,
                    main_focused: true,
                    settings: self.settings,
                    settings_focused: self.settings_focused,
                }),
                WindowCommand::ShowAndFocusWindow,
            ),
        }
    }

    /// Toggle the main window: hide it when visible, show and focus it when
    /// hidden, and do nothing when it does not exist.
    pub fn toggle_window_visibility(&mut self) -> (cmd: WindowCommand)
        requires
            old(self).wf(),
        ensures
            final(self).wf(),
            (*final(self), cmd) == old(self).spec_toggle_main(),
            old(self).main is Visible ==> cmd == WindowCommand::HideWindow
                && final(self).main is Hidden && !final(self).main_focused,
            old(self).main is Hidden ==> cmd == WindowCommand::ShowAndFocusWindow
                && final(self).main is Visible && final(self).main_focused,
            old(self).main is Nonexistent ==> cmd == WindowCommand::DoNothing
                && *final(self) == *old(self),
            final(self).settings == old(self).settings,
            final(self).settings_focused == old(self).settings_focused,
    {
        match self.main {
            WindowState::Nonexistent => WindowCommand::DoNothing,
            WindowState::Visible => {
                self.main = WindowState::Hidden;
                self.main_focused = false;
                WindowCommand::HideWindow
            },
            WindowState::Hidden => {
                self.main = WindowState::Visible;
                self.main_focused = true;
                WindowCommand::ShowAndFocusWindow
            },
        }
    }

    /// The show-settings transition: an existing window is only shown and
    /// focused; a missing one is created (shown and focused).
    pub open spec fn spec_show_settings(self) -> (WindowController, WindowCommand) {
        (
            (WindowController {
                main: self.main,
                main_focused: self.main_focused,
                settings: WindowState::Visible,
                settings_focused: true,
            }),
            if self.settings is Nonexistent {
                WindowCommand::CreateSettingsWindow
            } else {
                WindowCommand::ShowAndFocusWindow
            },
        )
    }

    /// Show the settings window, creating it only on the first request:
    /// repeated calls never create a second settings window.
    pub fn show_settings_window(&mut self) -> (cmd: WindowCommand)
        requires
            old(self).wf(),
        ensures
            final(self).wf(),
            (*final(self), cmd) == old(self).spec_show_settings(),
            cmd == WindowCommand::CreateSettingsWindow <==> old(self).settings is Nonexistent,
            final(self).settings is Visible,
            final(self).settings_focused,
            final(self).main == old(self).main,
            final(self).main_focused == old(self).main_focused,
    {
        let cmd = if matches!(self.settings, WindowState::Nonexistent) {
            WindowCommand::CreateSettingsWindow
        } else {
            WindowCommand::ShowAndFocusWindow
        };
        self.settings = WindowState::Visible;
        self.settings_focused = true;
        cmd
    }

    /// The close-request transition: the close is suppressed and the window
    /// is hidden; it never becomes `Nonexistent`.
    pub open spec fn spec_close_requested(self, which: WindowId) -> (WindowController, CloseResponse) {
        (
            match which {
                WindowId::MainWindow => (WindowController {
                    main: WindowState::Hidden,
                    main_focused: false,
                    settings: self.settings,
                    settings_focused: self.settings_focused,
                }),
                WindowId::SettingsWindow => (WindowController {
                    main: self.main,
                    main_focused: self.main_focused,
                    settings: WindowState::Hidden,
                    settings_focused: false,
                }),
            },
            CloseResponse { suppress_destroy: true, hide: true },
        )
    }

    /// Intercept a window's close request: suppress the destroy and hide the
    /// window instead, turning "close" into "minimize to tray".  Close
    /// requests only arrive for windows that exist.
    pub fn handle_close_requested(&mut self, which: WindowId) -> (r: CloseResponse)
        requires
            old(self).wf(),
            !(old(self).window_state(which) is Nonexistent),
        ensures
            final(self).wf(),
            (*final(self), r) == old(self).spec_close_requested(which),
            r.suppress_destroy,
            r.hide,
            final(self).window_state(which) is Hidden,
    {
        match which {
            WindowId::MainWindow => {
                self.main = WindowState::Hidden;
                self.main_focused = false;
            },
            WindowId::SettingsWindow => {
                self.settings = WindowState::Hidden;
                self.settings_focused = false;
            },
        }
        CloseResponse { suppress_destroy: true, hide: true }
    }
}

/// The fail-safe reading of a visibility query: only a positive answer counts
/// as visible; a failed or indeterminate query is treated as "not visible",
/// so that a toggle errs toward showing the window.
pub fn visibility_from_query(query: Option<bool>) -> (visible: bool)
    ensures
        visible == (query == Some(true)),
{
    match query {
        Some(b) => b,
        None => false,
    }
}

/// The raw toggle decision over what the framework reports.
pub open spec fn spec_toggle_command(window_exists: bool, query: Option<bool>) -> WindowCommand {
    if !window_exists {
        WindowCommand::DoNothing
    } else if query == Some(true) {
        WindowCommand::HideWindow
    } else {
        WindowCommand::ShowAndFocusWindow
    }
}

/// The raw toggle decision over what the framework reports: no window means
/// no action; a window whose visibility query answered `true` is hidden;
/// anything else is shown and focused.
pub fn toggle_command_for_query(window_exists: bool, query: Option<bool>) -> (cmd: WindowCommand)
    ensures
        cmd == spec_toggle_command(window_exists, query),
        !window_exists ==> cmd == WindowCommand::DoNothing,
        window_exists && query == Some(true) ==> cmd == WindowCommand::HideWindow,
        window_exists && query != Some(true) ==> cmd == WindowCommand::ShowAndFocusWindow,
{
    if !window_exists {
        WindowCommand::DoNothing
    } else if visibility_from_query(query) {
        WindowCommand::HideWindow
    } else {
        WindowCommand::ShowAndFocusWindow
    }
}

/// Law: when the framework's answers agree with the controller's model —
/// the window exists iff the model says so, and the visibility query answers
/// what the model holds — the query-based decision issues the same command
/// as the model transition.
pub proof fn lemma_query_toggle_agrees_with_model(c: WindowController)
    requires
        c.wf(),
    ensures
        spec_toggle_command(!(c.main is Nonexistent), Some(c.main is Visible))
            == c.spec_toggle_main().1,
{
}

/// Law: toggling a visible main window hides it, and toggling again shows it
/// and grants it focus, with the settings window untouched throughout.
pub proof fn lemma_toggle_round_trip(c: WindowController)
    requires
        c.wf(),
        c.main is Visible,
    ensures
        ({
            let (c1, cmd1) = c.spec_toggle_main();
            let (c2, cmd2) = c1.spec_toggle_main();
            &&& cmd1 == WindowCommand::HideWindow
            &&& c1.main is Hidden
            &&& !c1.main_focused
            &&& cmd2 == WindowCommand::ShowAndFocusWindow
            &&& c2.main is Visible
            &&& c2.main_focused
            &&& c2.settings == c.settings
            &&& c2.settings_focused == c.settings_focused
        }),
{
}

/// Law: asking for the settings window twice creates it at most once; the
/// second request only shows and focuses the existing window and leaves the
/// state exactly as the first request left it.
pub proof fn lemma_show_settings_idempotent(c: WindowController)
    requires
        c.wf(),
    ensures
        ({
            let (c1, cmd1) = c.spec_show_settings();
            let (c2, cmd2) = c1.spec_show_settings();
            &&& !(c1.settings is Nonexistent)
            &&& cmd2 == WindowCommand::ShowAndFocusWindow
            &&& cmd2 != WindowCommand::CreateSettingsWindow
            &&& c2 == c1
        }),
{
}

/// Law: a close request never destroys a window.  The destroy is suppressed,
/// the window ends up hidden, and it can be shown again afterwards.
pub proof fn lemma_close_never_destroys(c: WindowController, which: WindowId)
    requires
        c.wf(),
        !(c.window_state(which) is Nonexistent),
    ensures
        ({
            let (c1, r) = c.spec_close_requested(which);
            &&& r.suppress_destroy
            &&& r.hide
            &&& c1.window_state(which) is Hidden
            &&& !(c1.window_state(which) is Nonexistent)
            &&& (which is MainWindow ==> c1.spec_toggle_main().1 == WindowCommand::ShowAndFocusWindow
                && c1.spec_toggle_main().0.main is Visible)
            &&& (which is SettingsWindow ==> c1.spec_show_settings().0.settings is Visible)
        }),
{
}

} // verus!
