//! The tray-menu decision table: which window action each tray event asks
//! for. The host turns its toolkit's event into a `TrayEvent` (dropping only
//! the click coordinates, which it keeps for itself) and performs the
//! returned `TrayAction`.

use vstd::prelude::*;
use vstd::string::StringExecFns;

verus! {

/// The mouse button of a tray click.
#[derive(Clone, Copy, Debug, PartialEq, Eq, Structural)]
pub enum TrayButton {
    LeftButton,
    RightButton,
    OtherButton,
}

/// Whether the button was pressed or released.
#[derive(Clone, Copy, Debug, PartialEq, Eq, Structural)]
pub enum TrayButtonState {
    Up,
    Down,
}

/// A tray event, as the host reports it: a click on the icon, a click on a
/// menu item carrying that item's identifier, or anything else.
#[derive(Debug)]
pub enum TrayEvent {
    Click { button: TrayButton, state: TrayButtonState },
    MenuItemClick { id: String },
    Other,
}

/// What the host must do in response to a tray event.
#[derive(Clone, Copy, Debug, PartialEq, Eq, Structural)]
pub enum TrayAction {
    /// Show the main window and give it focus.
    ShowMainWindow,
    /// Hide the main window.
    HideMainWindow,
    /// Pop the tray menu up where the click landed.
    ShowTrayMenu,
    /// Exit the application.
    Quit,
    /// Do nothing.
    Ignore,
}

/// The action a menu item's identifier asks for; unknown identifiers are
/// ignored.
pub open spec fn spec_menu_action(id: Seq<char>) -> TrayAction {
    if id == "show"@ {
        TrayAction::ShowMainWindow
    } else if id == "hide"@ {
        TrayAction::HideMainWindow
    } else if id == "quit"@ {
        TrayAction::Quit
    } else {
        TrayAction::Ignore
    }
}

/// The action each tray event asks for: releasing the left button over the
/// icon shows the main window, releasing the right button pops the menu up,
/// a menu click goes by the item's identifier, and everything else — button
/// presses, other buttons, other events — is ignored.
pub open spec fn spec_tray_action(e: TrayEvent) -> TrayAction {
    match e {
        TrayEvent::Click { button, state } => {
            if button == TrayButton::LeftButton && state == TrayButtonState::Up {
                TrayAction::ShowMainWindow
            } else if button == TrayButton::RightButton && state == TrayButtonState::Up {
                TrayAction::ShowTrayMenu
            } else {
                TrayAction::Ignore
            }
        },
        TrayEvent::MenuItemClick { id } => spec_menu_action(id@),
        TrayEvent::Other => TrayAction::Ignore,
    }
}

/// Decide what a clicked menu item asks for.
pub fn menu_action(id: &String) -> (a: TrayAction)
    ensures
        a == spec_menu_action(id@),
{
    if id.eq(&String::from_str("show")) {
        TrayAction::ShowMainWindow
    } else if id.eq(&String::from_str("hide")) {
        TrayAction::HideMainWindow
    } else if id.eq(&String::from_str("quit")) {
        TrayAction::Quit
    } else {
        TrayAction::Ignore
    }
}

/// Decide what a tray event asks for.
pub fn tray_action(e: &TrayEvent) -> (a: TrayAction)
    ensures
        a == spec_tray_action(*e),
{
    match e {
        TrayEvent::Click { button, state } => {
            if *button == TrayButton::LeftButton && *state == TrayButtonState::Up {
                TrayAction::ShowMainWindow
            } else if *button == TrayButton::RightButton && *state == TrayButtonState::Up {
                TrayAction::ShowTrayMenu
            } else {
                TrayAction::Ignore
            }
        },
        TrayEvent::MenuItemClick { id } => menu_action(id),
        TrayEvent::Other => TrayAction::Ignore,
    }
}

} // verus!
