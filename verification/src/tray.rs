//! Mapping of tray-menu selections and tray-icon clicks to window commands.

use vstd::prelude::*;
use crate::text::str_eq;

verus! {

/// What a tray interaction asks of the window.
#[derive(Clone, Copy, Debug, PartialEq, Eq, Structural)]
pub enum TrayCommand {
    ShowWindow,
    HideWindow,
}

/// The kind of a click on the tray icon.
#[derive(Clone, Copy, Debug, PartialEq, Eq, Structural)]
pub enum TrayClick {
    Left,
    Right,
    Double,
}

/// The command for a menu selection, by exact match on the localized
/// label: "显示" shows the window, "退出" hides it, anything else is
/// ignored.
pub open spec fn spec_menu_command(id: Seq<char>) -> Option<TrayCommand> {
    if id == "显示"@ {
        Some(TrayCommand::ShowWindow)
    } else if id == "退出"@ {
        Some(TrayCommand::HideWindow)
    } else {
        None
    }
}

/// The command for a tray-icon click: a left click shows the window,
/// any other click is ignored.
pub open spec fn spec_click_command(click: TrayClick) -> Option<TrayCommand> {
    match click {
        TrayClick::Left => Some(TrayCommand::ShowWindow),
        TrayClick::Right => None,
        TrayClick::Double => None,
    }
}

/// Resolves a menu event's textual identifier to a window command.
pub fn menu_command(id: &str) -> (r: Option<TrayCommand>)
    ensures
        r == spec_menu_command(id@),
{
    if str_eq(id, "显示") {
        Some(TrayCommand::ShowWindow)
    } else if str_eq(id, "退出") {
        Some(TrayCommand::HideWindow)
    } else {
        None
    }
}

/// Resolves a tray-icon click to a window command.
pub fn click_command(click: TrayClick) -> (r: Option<TrayCommand>)
    ensures
        r == spec_click_command(click),
{
    match click {
        TrayClick::Left => Some(TrayCommand::ShowWindow),
        TrayClick::Right => None,
        TrayClick::Double => None,
    }
}

/// The menu entry labelled "显示" and a left click on the tray icon
/// resolve to the same command, showing the window.
pub proof fn lemma_show_paths_agree()
    ensures
        spec_menu_command("显示"@) == spec_click_command(TrayClick::Left),
        spec_menu_command("显示"@) == Some(TrayCommand::ShowWindow),
{
}

} // verus!
