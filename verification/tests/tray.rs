use pomodoro::tray::{
    menu_action, tray_click_action, MainWindowAction, MenuAction, ABOUT_MENU_ITEM_ID,
    CHECK_UPDATES_MENU_ITEM_ID, SETTINGS_MENU_ITEM_ID,
};

#[test]
fn menu_items_map_to_their_actions() {
    assert_eq!(menu_action(SETTINGS_MENU_ITEM_ID), MenuAction::OpenSettings);
    assert_eq!(menu_action("settings"), MenuAction::OpenSettings);
    assert_eq!(menu_action(CHECK_UPDATES_MENU_ITEM_ID), MenuAction::CheckUpdates);
    assert_eq!(menu_action(ABOUT_MENU_ITEM_ID), MenuAction::OpenAbout);
    assert_eq!(menu_action("quit"), MenuAction::Unsupported);
    assert_eq!(menu_action("Settings"), MenuAction::Unsupported);
    assert_eq!(menu_action(""), MenuAction::Unsupported);
}

#[test]
fn left_release_toggles_main_window() {
    assert_eq!(tray_click_action(true, true, true), Some(MainWindowAction::Hide));
    assert_eq!(tray_click_action(true, true, false), Some(MainWindowAction::ShowAtTray));
    assert_eq!(tray_click_action(true, false, false), None);
    assert_eq!(tray_click_action(false, true, true), None);
}
