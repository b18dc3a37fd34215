//! The tray menu: its labels in each language and the command behind each item.
use vstd::prelude::*;
use crate::config::same_text;

verus! {

/// Labels of the tray menu's items.
pub struct TrayStrings {
    pub quit: &'static str,
    pub settings: &'static str,
    pub reset_pos: &'static str,
    pub toggle_lock: &'static str,
    pub devtools: &'static str,
}

/// The labels for `lang`: Korean for "ko", English for anything else.
pub fn get_tray_strings(lang: &str) -> (r: TrayStrings)
    ensures
        lang@ == "ko"@ ==> r.quit@ == "종료"@ && r.settings@ == "설정"@ && r.reset_pos@
            == "위치 초기화"@ && r.toggle_lock@ == "잠금 전환"@ && r.devtools@ == "개발자 도구"@,
        lang@ != "ko"@ ==> r.quit@ == "Quit"@ && r.settings@ == "Settings"@ && r.reset_pos@
            == "Reset Position"@ && r.toggle_lock@ == "Lock/Unlock"@ && r.devtools@
            == "DevTools"@,
{
    if same_text(lang, "ko") {
        TrayStrings {
            quit: "종료",
            settings: "설정",
            reset_pos: "위치 초기화",
            toggle_lock: "잠금 전환",
            devtools: "개발자 도구",
        }
    } else {
        TrayStrings {
            quit: "Quit",
            settings: "Settings",
            reset_pos: "Reset Position",
            toggle_lock: "Lock/Unlock",
            devtools: "DevTools",
        }
    }
}

/// The command behind a tray menu item.
#[derive(Clone, Copy, Debug, PartialEq, Eq, Structural)]
pub enum MenuCommand {
    Quit,
    ResetPosition,
    OpenSettings,
    ToggleLock,
    OpenDevTools,
}

/// The command of the menu item with identifier `id`, if it is one of ours.
pub open spec fn command_of(id: Seq<char>) -> Option<MenuCommand> {
    if id == "quit"@ {
        Some(MenuCommand::Quit)
    } else if id == "reset_pos"@ {
        Some(MenuCommand::ResetPosition)
    } else if id == "settings"@ {
        Some(MenuCommand::OpenSettings)
    } else if id == "toggle_lock"@ {
        Some(MenuCommand::ToggleLock)
    } else if id == "devpanel"@ {
        Some(MenuCommand::OpenDevTools)
    } else {
        None
    }
}

pub fn menu_command(id: &str) -> (r: Option<MenuCommand>)
    ensures
        r == command_of(id@),
{
    if same_text(id, "quit") {
        Some(MenuCommand::Quit)
    } else if same_text(id, "reset_pos") {
        Some(MenuCommand::ResetPosition)
    } else if same_text(id, "settings") {
        Some(MenuCommand::OpenSettings)
    } else if same_text(id, "toggle_lock") {
        Some(MenuCommand::ToggleLock)
    } else if same_text(id, "devpanel") {
        Some(MenuCommand::OpenDevTools)
    } else {
        None
    }
}

} // verus!
