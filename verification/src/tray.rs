//! What the tray icon and its menu do when the user uses them.

use vstd::prelude::*;

verus! {

/// Identifier of the menu item that opens the settings window.
pub const SETTINGS_MENU_ITEM_ID: &'static str = "settings";
/// Identifier of the menu item that checks for updates.
pub const CHECK_UPDATES_MENU_ITEM_ID: &'static str = "check_updates";
/// Identifier of the menu item that opens the about window.
pub const ABOUT_MENU_ITEM_ID: &'static str = "about";

/// What a click on a menu item asks for.
#[derive(Clone, Copy, Debug, PartialEq, Eq, Structural)]
pub enum MenuAction {
    /// Show the settings window, creating it if there is none.
    OpenSettings,
    /// Look for an update and tell the user what was found.
    CheckUpdates,
    /// Show the about window, creating it if there is none.
    OpenAbout,
    /// An item this application does not know.
    Unsupported,
}

/// The action of the menu item with identifier `id`.
pub open spec fn spec_menu_action(id: Seq<char>) -> MenuAction {
    if id == SETTINGS_MENU_ITEM_ID@ {
        MenuAction::OpenSettings
    } else if id == ABOUT_MENU_ITEM_ID@ {
        MenuAction::OpenAbout
    } else if id == CHECK_UPDATES_MENU_ITEM_ID@ {
        MenuAction::CheckUpdates
    } else {
        MenuAction::Unsupported
    }
}

/// The action of the menu item that was clicked.
pub fn menu_action(id: &str) -> (action: MenuAction)
    ensures
        action == spec_menu_action(id@),
{
    let id = id.to_owned();
    if id == SETTINGS_MENU_ITEM_ID.to_owned() {
        MenuAction::OpenSettings
    } else if id == ABOUT_MENU_ITEM_ID.to_owned() {
        MenuAction::OpenAbout
    } else if id == CHECK_UPDATES_MENU_ITEM_ID.to_owned() {
        MenuAction::CheckUpdates
    } else {
        MenuAction::Unsupported
    }
}

/// What a click on the tray icon does to the main window.
#[derive(Clone, Copy, Debug, PartialEq, Eq, Structural)]
pub enum MainWindowAction {
    /// Hide the window.
    Hide,
    /// Move the window next to the tray icon and show it.
    ShowAtTray,
}

/// The action on the main window when the tray icon is clicked: only the
/// release of the left button counts, and it hides a visible window and shows
/// a hidden one.
pub fn tray_click_action(left_button: bool, released: bool, window_visible: bool) -> (action: Option<MainWindowAction>)
    ensures
        action == (if left_button && released {
            Some(if window_visible { MainWindowAction::Hide } else { MainWindowAction::ShowAtTray })
        } else {
            None
        }),
{
    if left_button && released {
        if window_visible {
            Some(MainWindowAction::Hide)
        } else {
            Some(MainWindowAction::ShowAtTray)
        }
    } else {
        None
    }
}

/// The menu item identifiers differ from one another, so each item has its own
/// action.
pub proof fn lemma_menu_ids_distinct()
    ensures
        spec_menu_action(SETTINGS_MENU_ITEM_ID@) == MenuAction::OpenSettings,
        spec_menu_action(CHECK_UPDATES_MENU_ITEM_ID@) == MenuAction::CheckUpdates,
        spec_menu_action(ABOUT_MENU_ITEM_ID@) == MenuAction::OpenAbout,
{
    reveal_strlit("settings");
    reveal_strlit("check_updates");
    reveal_strlit("about");
    assert(SETTINGS_MENU_ITEM_ID@.len() != ABOUT_MENU_ITEM_ID@.len());
    assert(CHECK_UPDATES_MENU_ITEM_ID@.len() != ABOUT_MENU_ITEM_ID@.len());
    assert(CHECK_UPDATES_MENU_ITEM_ID@.len() != SETTINGS_MENU_ITEM_ID@.len());
}

} // verus!
