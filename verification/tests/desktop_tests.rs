use pulse::desktop::{
    hide_window, position_near_tray, setup_tray, show_window, toggle_window, tray_menu_action, TrayAction,
    TrayMenuEntry, WindowAction,
};

#[test]
fn tray_menu_actions() {
    assert!(tray_menu_action("show") == TrayAction::ShowWindow);
    assert!(tray_menu_action("refresh") == TrayAction::Refresh);
    assert!(tray_menu_action("quit") == TrayAction::Quit);
    assert!(tray_menu_action("other") == TrayAction::Ignore);
}

#[test]
fn toggle_window_decisions() {
    assert!(toggle_window(Some(true), Some((1, 2))) == WindowAction::Hide);
    assert!(toggle_window(Some(false), Some((1, 2))) == WindowAction::ShowAt(1, 2));
    assert!(toggle_window(Some(false), None) == WindowAction::ShowNearTray);
    assert!(toggle_window(None, None) == WindowAction::Nothing);
}

#[test]
fn position_near_tray_bottom_right() {
    assert_eq!(position_near_tray(0, 0, 1920, 1040, 400, 600, 16), (1504, 424));
}

#[test]
fn tray_menu_layout() {
    let menu = setup_tray();
    assert_eq!(menu.len(), 5);
    let ids: Vec<String> = menu
        .iter()
        .filter_map(|e| match e {
            TrayMenuEntry::Item { id, .. } => Some(id.clone()),
            TrayMenuEntry::Separator => None,
        })
        .collect();
    assert_eq!(ids, vec!["show", "refresh", "quit"]);
    match &menu[0] {
        TrayMenuEntry::Item { label, .. } => assert_eq!(label, "显示主面板"),
        TrayMenuEntry::Separator => panic!("first entry is an item"),
    }
    assert!(matches!(menu[1], TrayMenuEntry::Separator));
    assert!(matches!(menu[3], TrayMenuEntry::Separator));
    for id in &ids {
        assert!(tray_menu_action(id) != TrayAction::Ignore);
    }
}

#[test]
fn show_and_hide_window() {
    assert!(show_window() == WindowAction::ShowNearTray);
    assert!(hide_window() == WindowAction::Hide);
}
