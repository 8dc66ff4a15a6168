//! Decision core of a small desktop shell.
//!
//! The shell owns one main window, a tray icon with a two-item menu, and one
//! global keyboard shortcut that toggles the main window's visibility.  This
//! crate holds the parts with actual state and rules: the window-visibility
//! state machine, the single-slot shortcut lifecycle, the settings-document
//! reader that resolves the configured shortcut, and the dispatch rules for
//! tray and hotkey events.  The host framework (windowing, tray rendering,
//! OS-level hotkey capture) is driven by an embedder that performs the
//! commands these functions decide on.

pub mod events;
pub mod shortcut;
pub mod tray;
pub mod window;
