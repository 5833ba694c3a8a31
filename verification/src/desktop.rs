//! Decisions of the tray icon and the main window.
use vstd::prelude::*;
use crate::text::{owned, str_equal};

verus! {

/// What a tray menu entry asks for.
#[derive(PartialEq, Eq, Structural, Clone, Copy, Debug)]
pub enum TrayAction {
    ShowWindow,
    Refresh,
    Quit,
    Ignore,
}

/// The action that a tray menu entry id stands for.
pub open spec fn tray_action_of(id: Seq<char>) -> TrayAction {
    if id == "show"@ {
        TrayAction::ShowWindow
    } else if id == "refresh"@ {
        TrayAction::Refresh
    } else if id == "quit"@ {
        TrayAction::Quit
    } else {
        TrayAction::Ignore
    }
}

/// The action of the tray menu entry with the given id.
pub fn tray_menu_action(id: &str) -> (a: TrayAction)
    ensures
        a == tray_action_of(id@),
{
    if str_equal(id, "show") {
        TrayAction::ShowWindow
    } else if str_equal(id, "refresh") {
        TrayAction::Refresh
    } else if str_equal(id, "quit") {
        TrayAction::Quit
    } else {
        TrayAction::Ignore
    }
}

/// One entry of the tray menu, top to bottom.
#[derive(Debug)]
pub enum TrayMenuEntry {
    Item { id: String, label: String },
    Separator,
}

/// `e` is the menu item with this id and label.
pub open spec fn is_item(e: TrayMenuEntry, id: Seq<char>, label: Seq<char>) -> bool {
    e matches TrayMenuEntry::Item { id: i, label: l } && i@ == id && l@ == label
}

/// The tray menu: "show the main panel", "refresh now" and "quit", with a
/// separator between each two. Every item's id has an action.
pub fn setup_tray() -> (menu: Vec<TrayMenuEntry>)
    ensures
        menu.len() == 5,
        is_item(menu[0], "show"@, "显示主面板"@),
        menu[1] is Separator,
        is_item(menu[2], "refresh"@, "立即刷新"@),
        menu[3] is Separator,
        is_item(menu[4], "quit"@, "退出"@),
        forall|i: int|
            0 <= i < menu.len() && (#[trigger] menu[i]) is Item ==> tray_action_of(menu[i]->id@)
                != TrayAction::Ignore,
{
    let mut menu: Vec<TrayMenuEntry> = Vec::new();
    menu.push(TrayMenuEntry::Item { id: owned("show"), label: owned("显示主面板") });
    menu.push(TrayMenuEntry::Separator);
    menu.push(TrayMenuEntry::Item { id: owned("refresh"), label: owned("立即刷新") });
    menu.push(TrayMenuEntry::Separator);
    menu.push(TrayMenuEntry::Item { id: owned("quit"), label: owned("退出") });
    proof {
        reveal_strlit("show");
        reveal_strlit("refresh");
        reveal_strlit("quit");
    }
    menu
}

/// Showing the main window places it next to the tray.
pub fn show_window() -> (a: WindowAction)
    ensures
        a == WindowAction::ShowNearTray,
{
    WindowAction::ShowNearTray
}

/// Hiding the main window.
pub fn hide_window() -> (a: WindowAction)
    ensures
        a == WindowAction::Hide,
{
    WindowAction::Hide
}

/// What toggling the main window does.
#[derive(PartialEq, Eq, Structural, Clone, Copy, Debug)]
pub enum WindowAction {
    /// Hide the visible window.
    Hide,
    /// Show and focus the window at a remembered position.
    ShowAt(i32, i32),
    /// Show and focus the window next to the tray.
    ShowNearTray,
    /// Do nothing (the window's visibility is unknown).
    Nothing,
}

/// Toggles the main window: a visible window is hidden; a hidden one is shown
/// at the remembered position, or next to the tray when there is none.
/// `visible` is `None` when the window's visibility could not be read.
pub fn toggle_window(visible: Option<bool>, stored_position: Option<(i32, i32)>) -> (a: WindowAction)
    ensures
        a == match visible {
            None => WindowAction::Nothing,
            Some(true) => WindowAction::Hide,
            Some(false) => match stored_position {
                Some(p) => WindowAction::ShowAt(p.0, p.1),
                None => WindowAction::ShowNearTray,
            },
        },
{
    match visible {
        None => WindowAction::Nothing,
        Some(true) => WindowAction::Hide,
        Some(false) => match stored_position {
            Some(p) => WindowAction::ShowAt(p.0, p.1),
            None => WindowAction::ShowNearTray,
        },
    }
}

/// The window position next to the tray: the bottom-right corner of the work
/// area, `margin` pixels in from both edges. The sizes are converted with
/// `as i32`; the arithmetic must not overflow.
pub fn position_near_tray(
    area_x: i32,
    area_y: i32,
    area_width: u32,
    area_height: u32,
    window_width: u32,
    window_height: u32,
    margin: i32,
) -> (p: (i32, i32))
    requires
        i32::MIN <= area_x + (area_width as i32) <= i32::MAX,
        i32::MIN <= area_x + (area_width as i32) - (window_width as i32) <= i32::MAX,
        i32::MIN <= area_x + (area_width as i32) - (window_width as i32) - margin <= i32::MAX,
        i32::MIN <= area_y + (area_height as i32) <= i32::MAX,
        i32::MIN <= area_y + (area_height as i32) - (window_height as i32) <= i32::MAX,
        i32::MIN <= area_y + (area_height as i32) - (window_height as i32) - margin <= i32::MAX,
    ensures
        p.0 == area_x + (area_width as i32) - (window_width as i32) - margin,
        p.1 == area_y + (area_height as i32) - (window_height as i32) - margin,
{
    let x = area_x + area_width as i32 - window_width as i32 - margin;
    let y = area_y + area_height as i32 - window_height as i32 - margin;
    (x, y)
}

} // verus!
