//! The texts and menu of the system tray icon.  Creating the icon and the
//! windows it shows is left to the caller.
use vstd::prelude::*;

use crate::locale::{pick, prefers_english, BackendLocale};
use crate::text::str_eq;

verus! {

/// The identifier of the menu item that shows the main window.
pub const MENU_ID_SHOW: &'static str = "tray_show";

/// The identifier of the menu item that hides the main window.
pub const MENU_ID_HIDE: &'static str = "tray_hide";

/// The identifier of the menu item that quits.
pub const MENU_ID_QUIT: &'static str = "tray_quit";

/// A text of the tray.
#[derive(Clone, Copy, Debug, PartialEq, Eq, Structural)]
pub enum TrayText {
    MainWindowNotFound,
    Show,
    Hide,
    Quit,
    CreateMenuFailed,
    LoadIconFailed,
    CreateTrayFailed,
}

/// A tray text in Chinese and in English.
pub open spec fn tray_text_pair(key: TrayText) -> (Seq<char>, Seq<char>) {
    match key {
        TrayText::MainWindowNotFound => ("未找到主窗口。"@, "Main window not found."@),
        TrayText::Show => ("打开主界面"@, "Open main window"@),
        TrayText::Hide => ("隐藏到后台"@, "Hide to background"@),
        TrayText::Quit => ("退出应用"@, "Quit app"@),
        TrayText::CreateMenuFailed => ("创建托盘菜单失败"@, "Failed to create the tray menu"@),
        TrayText::LoadIconFailed => ("加载托盘图标失败"@, "Failed to load the tray icon"@),
        TrayText::CreateTrayFailed => ("创建系统托盘失败"@, "Failed to create the system tray"@),
    }
}

/// The tray text `key` in the language the stored preference names.
pub open spec fn tray_text_spec(locale: Seq<char>, key: TrayText) -> Seq<char> {
    if prefers_english(locale) {
        tray_text_pair(key).1
    } else {
        tray_text_pair(key).0
    }
}

/// The tray text `key` for the stored locale preference `locale`: English
/// when it names English, Chinese otherwise.
pub fn tray_text(locale: &str, key: TrayText) -> (r: &'static str)
    ensures
        r@ == tray_text_spec(locale@, key),
{
    let english = BackendLocale::from_preference(locale).is_en();
    match (english, key) {
        (true, TrayText::MainWindowNotFound) => "Main window not found.",
        (true, TrayText::Show) => "Open main window",
        (true, TrayText::Hide) => "Hide to background",
        (true, TrayText::Quit) => "Quit app",
        (true, TrayText::CreateMenuFailed) => "Failed to create the tray menu",
        (true, TrayText::LoadIconFailed) => "Failed to load the tray icon",
        (true, TrayText::CreateTrayFailed) => "Failed to create the system tray",
        (false, TrayText::MainWindowNotFound) => "未找到主窗口。",
        (false, TrayText::Show) => "打开主界面",
        (false, TrayText::Hide) => "隐藏到后台",
        (false, TrayText::Quit) => "退出应用",
        (false, TrayText::CreateMenuFailed) => "创建托盘菜单失败",
        (false, TrayText::LoadIconFailed) => "加载托盘图标失败",
        (false, TrayText::CreateTrayFailed) => "创建系统托盘失败",
    }
}

/// What a tray menu item does.
#[derive(Clone, Copy, Debug, PartialEq, Eq, Structural)]
pub enum TrayAction {
    ShowMainWindow,
    HideMainWindow,
    Quit,
}

/// The action of the menu item `id`, if it is one of the tray's.
pub fn tray_menu_action(id: &str) -> (r: Option<TrayAction>)
    ensures
        r == (if id@ == MENU_ID_SHOW@ {
            Some(TrayAction::ShowMainWindow)
        } else if id@ == MENU_ID_HIDE@ {
            Some(TrayAction::HideMainWindow)
        } else if id@ == MENU_ID_QUIT@ {
            Some(TrayAction::Quit)
        } else {
            None
        }),
{
    if str_eq(id, MENU_ID_SHOW) {
        Some(TrayAction::ShowMainWindow)
    } else if str_eq(id, MENU_ID_HIDE) {
        Some(TrayAction::HideMainWindow)
    } else if str_eq(id, MENU_ID_QUIT) {
        Some(TrayAction::Quit)
    } else {
        None
    }
}

/// A click on the tray icon shows the main window when it is the left
/// button coming up.
pub fn tray_click_shows_window(left_button: bool, button_up: bool) -> (b: bool)
    ensures
        b == (left_button && button_up),
{
    left_button && button_up
}

/// A tray error message: the text `key`, `: ` and the error.
pub fn tray_error(locale: &str, key: TrayText, error: &str) -> (r: String)
    ensures
        r@ == tray_text_spec(locale@, key) + ": "@ + error@,
{
    let mut m = tray_text(locale, key).to_owned();
    m.append(": ");
    m.append(error);
    proof {
        reveal_strlit(": ");
    }
    m
}

} // verus!
