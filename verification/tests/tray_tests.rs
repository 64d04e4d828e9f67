use harness_desktop::tray::{
    build_tray, menu_action, tray_action, window_action, MenuLine, ShellAction,
    TraySignal, WindowSignal, MAIN_WINDOW, TRAY_TOOLTIP,
};

#[test]
fn menu_has_its_entries_in_order() {
    let shown: Vec<String> = build_tray()
        .iter()
        .map(|line| match line {
            MenuLine::Item { id, label } => format!("{}={}", id, label),
            MenuLine::CheckItem { id, label, checked } => format!("{}={}?{}", id, label, checked),
            MenuLine::Separator => String::from("-"),
        })
        .collect();
    assert_eq!(
        shown,
        vec![
            "show=显示主窗口",
            "upgrade=升级 dsh",
            "restart=重启服务",
            "browser=在浏览器中打开",
            "-",
            "toggle-autostart=开机自启动?false",
            "-",
            "quit=退出",
        ]
    );
    assert_eq!(TRAY_TOOLTIP, "DeepSeek Harness");
    assert_eq!(MAIN_WINDOW, "main");
}

#[test]
fn menu_entries_have_their_meaning() {
    assert_eq!(menu_action("show"), ShellAction::ShowMainWindow);
    assert_eq!(menu_action("restart"), ShellAction::RestartServer);
    assert_eq!(menu_action("browser"), ShellAction::OpenBrowser);
    assert_eq!(menu_action("upgrade"), ShellAction::Upgrade);
    assert_eq!(menu_action("toggle-autostart"), ShellAction::ToggleAutostart);
    assert_eq!(menu_action("quit"), ShellAction::Quit);
    assert_eq!(menu_action("Quit"), ShellAction::Ignore);
    assert_eq!(menu_action(""), ShellAction::Ignore);
}

#[test]
fn every_menu_entry_acts() {
    let mut seen: Vec<ShellAction> = Vec::new();
    for line in build_tray() {
        let id = match line {
            MenuLine::Item { id, .. } => id,
            MenuLine::CheckItem { id, .. } => id,
            MenuLine::Separator => continue,
        };
        let action = menu_action(&id);
        assert_ne!(action, ShellAction::Ignore);
        assert!(!seen.contains(&action));
        seen.push(action);
    }
    assert_eq!(seen.len(), 6);
}

#[test]
fn clicks_and_closing() {
    assert_eq!(tray_action(TraySignal::LeftClick), ShellAction::ShowMainWindow);
    assert_eq!(tray_action(TraySignal::Other), ShellAction::Ignore);
    assert_eq!(window_action(WindowSignal::CloseRequested), ShellAction::HideWindow);
    assert_eq!(window_action(WindowSignal::Other), ShellAction::Ignore);
}
