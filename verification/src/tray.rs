//! The tray icon, its menu, and what the shell does on a click.

use vstd::prelude::*;

verus! {

/// The text that the tray icon shows when pointed at.
pub const TRAY_TOOLTIP: &'static str = "DeepSeek Harness";

/// The name of the main window.
pub const MAIN_WINDOW: &'static str = "main";

/// What the shell does on a click.
#[derive(Clone, Copy, PartialEq, Eq, Structural, Debug)]
pub enum ShellAction {
    /// Bring the main window to the front.
    ShowMainWindow,
    /// Restart the server.
    RestartServer,
    /// Open the server's web page in the browser.
    OpenBrowser,
    /// Upgrade the server's package.
    Upgrade,
    /// Set the autostart switch to the opposite of what it shows.
    ToggleAutostart,
    /// Leave the program.
    Quit,
    /// Do not close the window, but hide it.
    HideWindow,
    /// Do nothing.
    Ignore,
}

/// One line of the tray menu.
#[derive(Debug)]
pub enum MenuLine {
    /// An entry.
    Item { id: String, label: String },
    /// An entry with a check mark.
    CheckItem { id: String, label: String, checked: bool },
    /// A line between entries.
    Separator,
}

/// What a `MenuLine` says.
pub enum MenuLineView {
    Item { id: Seq<char>, label: Seq<char> },
    CheckItem { id: Seq<char>, label: Seq<char>, checked: bool },
    Separator,
}

impl View for MenuLine {
    type V = MenuLineView;

    open spec fn view(&self) -> MenuLineView {
        match *self {
            MenuLine::Item { id, label } => MenuLineView::Item { id: id@, label: label@ },
            MenuLine::CheckItem { id, label, checked } => MenuLineView::CheckItem {
                id: id@,
                label: label@,
                checked,
            },
            MenuLine::Separator => MenuLineView::Separator,
        }
    }
}

/// The tray menu, from top to bottom.
pub open spec fn menu_lines() -> Seq<MenuLineView> {
    seq![
        MenuLineView::Item { id: "show"@, label: "显示主窗口"@ },
        MenuLineView::Item { id: "upgrade"@, label: "升级 dsh"@ },
        MenuLineView::Item { id: "restart"@, label: "重启服务"@ },
        MenuLineView::Item { id: "browser"@, label: "在浏览器中打开"@ },
        MenuLineView::Separator,
        MenuLineView::CheckItem {
            id: "toggle-autostart"@,
            label: "开机自启动"@,
            checked: false,
        },
        MenuLineView::Separator,
        MenuLineView::Item { id: "quit"@, label: "退出"@ },
    ]
}

fn item(id: &str, label: &str) -> (line: MenuLine)
    ensures
        line@ == (MenuLineView::Item { id: id@, label: label@ }),
{
    MenuLine::Item { id: id.to_string(), label: label.to_string() }
}

/// The tray menu, from top to bottom.
pub fn build_tray() -> (lines: Vec<MenuLine>)
    ensures
        lines@.map_values(|line: MenuLine| line@) == menu_lines(),
{
    let mut lines: Vec<MenuLine> = Vec::new();
    lines.push(item("show", "显示主窗口"));
    lines.push(item("upgrade", "升级 dsh"));
    lines.push(item("restart", "重启服务"));
    lines.push(item("browser", "在浏览器中打开"));
    lines.push(MenuLine::Separator);
    lines.push(
        MenuLine::CheckItem {
            id: "toggle-autostart".to_string(),
            label: "开机自启动".to_string(),
            checked: false,
        },
    );
    lines.push(MenuLine::Separator);
    lines.push(item("quit", "退出"));
    assert(lines@.map_values(|line: MenuLine| line@) =~= menu_lines());
    lines
}

/// What a click on the menu entry `id` does.
pub open spec fn menu_meaning(id: Seq<char>) -> ShellAction {
    if id == "show"@ {
        ShellAction::ShowMainWindow
    } else if id == "restart"@ {
        ShellAction::RestartServer
    } else if id == "browser"@ {
        ShellAction::OpenBrowser
    } else if id == "upgrade"@ {
        ShellAction::Upgrade
    } else if id == "toggle-autostart"@ {
        ShellAction::ToggleAutostart
    } else if id == "quit"@ {
        ShellAction::Quit
    } else {
        ShellAction::Ignore
    }
}

/// What a click on the menu entry `id` does.
pub fn menu_action(id: &str) -> (action: ShellAction)
    ensures
        action == menu_meaning(id@),
{
    let id = id.to_string();
    if id == "show".to_string() {
        ShellAction::ShowMainWindow
    } else if id == "restart".to_string() {
        ShellAction::RestartServer
    } else if id == "browser".to_string() {
        ShellAction::OpenBrowser
    } else if id == "upgrade".to_string() {
        ShellAction::Upgrade
    } else if id == "toggle-autostart".to_string() {
        ShellAction::ToggleAutostart
    } else if id == "quit".to_string() {
        ShellAction::Quit
    } else {
        ShellAction::Ignore
    }
}

/// The name of the entry on a line of the menu, if there is an entry.
pub open spec fn entry_id(line: MenuLineView) -> Option<Seq<char>> {
    match line {
        MenuLineView::Item { id, .. } => Some(id),
        MenuLineView::CheckItem { id, .. } => Some(id),
        MenuLineView::Separator => None,
    }
}

/// Every entry of the menu does something, and no two do the same.
pub proof fn law_menu_entries_act(i: int, j: int)
    requires
        0 <= i < menu_lines().len(),
        0 <= j < menu_lines().len(),
        entry_id(menu_lines()[i]) is Some,
        entry_id(menu_lines()[j]) is Some,
    ensures
        menu_meaning(entry_id(menu_lines()[i])->0) != ShellAction::Ignore,
        i != j ==> menu_meaning(entry_id(menu_lines()[i])->0) != menu_meaning(
            entry_id(menu_lines()[j])->0,
        ),
{
    reveal_strlit("show");
    reveal_strlit("restart");
    reveal_strlit("browser");
    reveal_strlit("upgrade");
    reveal_strlit("toggle-autostart");
    reveal_strlit("quit");
    assert("show"@[0] == 's');
    assert("restart"@[0] == 'r');
    assert("browser"@[0] == 'b');
    assert("upgrade"@[0] == 'u');
    assert("toggle-autostart"@[0] == 't');
    assert("quit"@[0] == 'q');
}

/// What happened to the tray icon.
#[derive(Clone, Copy, PartialEq, Eq, Structural, Debug)]
pub enum TraySignal {
    LeftClick,
    Other,
}

/// What the shell does about the tray icon.
pub open spec fn tray_meaning(signal: TraySignal) -> ShellAction {
    match signal {
        TraySignal::LeftClick => ShellAction::ShowMainWindow,
        TraySignal::Other => ShellAction::Ignore,
    }
}

/// What the shell does about the tray icon: a click with the left button brings
/// the main window back.
pub fn tray_action(signal: TraySignal) -> (action: ShellAction)
    ensures
        action == (match signal {
            TraySignal::LeftClick => ShellAction::ShowMainWindow,
            TraySignal::Other => ShellAction::Ignore,
        }),
        action == tray_meaning(signal),
{
    match signal {
        TraySignal::LeftClick => ShellAction::ShowMainWindow,
        TraySignal::Other => ShellAction::Ignore,
    }
}

/// What happened to a window.
#[derive(Clone, Copy, PartialEq, Eq, Structural, Debug)]
pub enum WindowSignal {
    CloseRequested,
    Other,
}

/// What the shell does about a window.
pub open spec fn window_meaning(signal: WindowSignal) -> ShellAction {
    match signal {
        WindowSignal::CloseRequested => ShellAction::HideWindow,
        WindowSignal::Other => ShellAction::Ignore,
    }
}

/// What the shell does about a window: closing it hides it to the tray.
pub fn window_action(signal: WindowSignal) -> (action: ShellAction)
    ensures
        action == (match signal {
            WindowSignal::CloseRequested => ShellAction::HideWindow,
            WindowSignal::Other => ShellAction::Ignore,
        }),
        action == window_meaning(signal),
{
    match signal {
        WindowSignal::CloseRequested => ShellAction::HideWindow,
        WindowSignal::Other => ShellAction::Ignore,
    }
}

/// The six entries mean what they say, and no other name means anything.
pub proof fn law_menu_meanings(id: Seq<char>)
    ensures
        menu_meaning("show"@) == ShellAction::ShowMainWindow,
        menu_meaning("upgrade"@) == ShellAction::Upgrade,
        menu_meaning("restart"@) == ShellAction::RestartServer,
        menu_meaning("browser"@) == ShellAction::OpenBrowser,
        menu_meaning("toggle-autostart"@) == ShellAction::ToggleAutostart,
        menu_meaning("quit"@) == ShellAction::Quit,
        menu_meaning(id) == ShellAction::Quit ==> id == "quit"@,
        menu_meaning(id) == ShellAction::Ignore <==> id != "show"@ && id != "upgrade"@ && id
            != "restart"@ && id != "browser"@ && id != "toggle-autostart"@ && id != "quit"@,
        menu_meaning(id) != ShellAction::HideWindow,
{
    reveal_strlit("show");
    reveal_strlit("restart");
    reveal_strlit("browser");
    reveal_strlit("upgrade");
    reveal_strlit("toggle-autostart");
    reveal_strlit("quit");
    assert("show"@[0] == 's');
    assert("restart"@[0] == 'r');
    assert("browser"@[0] == 'b');
    assert("upgrade"@[0] == 'u');
    assert("toggle-autostart"@[0] == 't');
    assert("quit"@[0] == 'q');
}

/// Closing a window hides it and never leaves the program, which only the entry for
/// it does. A left click on the tray icon does what the first entry of the menu
/// does.
pub proof fn law_closing_is_not_leaving(tray: TraySignal, window: WindowSignal)
    ensures
        window_meaning(window) != ShellAction::Quit,
        tray_meaning(tray) != ShellAction::Quit,
        window_meaning(window) == ShellAction::HideWindow <==> window
            == WindowSignal::CloseRequested,
        window_meaning(window) == ShellAction::Ignore <==> window != WindowSignal::CloseRequested,
        tray_meaning(TraySignal::LeftClick) == menu_meaning(entry_id(menu_lines()[0])->0),
        tray_meaning(tray) == ShellAction::Ignore <==> tray != TraySignal::LeftClick,
{
}

} // verus!
