//! Tray manager decisions: which action a tray menu selection or a tray icon
//! click triggers.  The menu itself is two static items with fixed ids,
//! "show_hide" and "quit"; building the native menu and icon is the
//! embedder's job.

use vstd::prelude::*;

verus! {

/// What a tray interaction asks the shell to do.
#[derive(Clone, Copy, Debug, PartialEq, Eq, Structural)]
pub enum TrayAction {
    /// Toggle the main window's visibility.
    ToggleMainWindow,
    /// Terminate the process immediately, bypassing close interception.
    QuitApp,
    /// The interaction is ignored.
    NoTrayAction,
}

/// Mouse button of a tray icon click.
#[derive(Clone, Copy, Debug, PartialEq, Eq, Structural)]
pub enum TrayMouseButton {
    LeftButton,
    RightButton,
    MiddleButton,
}

/// Press phase of a tray icon click.
#[derive(Clone, Copy, Debug, PartialEq, Eq, Structural)]
pub enum TrayButtonState {
    ButtonUp,
    ButtonDown,
}

/// A tray icon event, reduced to what the dispatch rule reads.
#[derive(Clone, Copy, Debug, PartialEq, Eq, Structural)]
pub enum TrayIconInput {
    /// A click on the tray icon.
    TrayClick { button: TrayMouseButton, button_state: TrayButtonState },
    /// Any other tray event (double click, enter, move, leave, ...).
    OtherTrayEvent,
}

/// Menu dispatch rule: "show_hide" toggles, "quit" quits, anything else is
/// ignored.
pub open spec fn spec_menu_action(id: Seq<char>) -> TrayAction {
    if id == "show_hide"@ {
        TrayAction::ToggleMainWindow
    } else if id == "quit"@ {
        TrayAction::QuitApp
    } else {
        TrayAction::NoTrayAction
    }
}

/// Dispatch a tray menu selection by its stable string id.
pub fn menu_event_action(menu_id: &str) -> (a: TrayAction)
    ensures
        a == spec_menu_action(menu_id@),
{
    let id: String = menu_id.to_owned();
    if id == String::from_str("show_hide") {
        TrayAction::ToggleMainWindow
    } else if id == String::from_str("quit") {
        TrayAction::QuitApp
    } else {
        TrayAction::NoTrayAction
    }
}

/// Icon dispatch rule: only the release of a left-button click toggles the
/// main window; every other tray event is ignored.
pub open spec fn spec_tray_icon_action(e: TrayIconInput) -> TrayAction {
    match e {
        TrayIconInput::TrayClick {
            button: TrayMouseButton::LeftButton,
            button_state: TrayButtonState::ButtonUp,
        } => TrayAction::ToggleMainWindow,
        _ => TrayAction::NoTrayAction,
    }
}

/// Dispatch a tray icon event.
pub fn tray_icon_event_action(e: TrayIconInput) -> (a: TrayAction)
    ensures
        a == spec_tray_icon_action(e),
{
    match e {
        TrayIconInput::TrayClick {
            button: TrayMouseButton::LeftButton,
            button_state: TrayButtonState::ButtonUp,
        } => TrayAction::ToggleMainWindow,
        _ => TrayAction::NoTrayAction,
    }
}

} // verus!
