use btc_ticker::tray::{
    menu_action, proxy_dialog_default, proxy_dialog_outcome, proxy_dialog_script, proxy_menu_text,
    saved_proxy_address, tray_click_action, tray_title, ActivationPolicy, ClickAction, DialogOutcome, MenuAction,
    TrayState,
};

#[test]
fn tray_state_starts_visible_without_proxy() {
    let s = TrayState::new();
    assert!(s.dock_visible);
    assert_eq!(s.proxy_address, "");
    assert_eq!(s.dock_menu_text(), "隐藏 Dock 图标");
}

#[test]
fn dock_toggle_flips_policy_and_label() {
    let mut s = TrayState::new();
    assert_eq!(s.toggle_dock(), ActivationPolicy::Accessory);
    assert!(!s.dock_visible);
    assert_eq!(s.dock_menu_text(), "显示 Dock 图标");
    assert_eq!(s.toggle_dock(), ActivationPolicy::Regular);
    assert!(s.dock_visible);
    assert_eq!(s.dock_menu_text(), "隐藏 Dock 图标");
}

#[test]
fn proxy_menu_labels() {
    assert_eq!(proxy_menu_text(""), "配置代理...");
    assert_eq!(proxy_menu_text("127.0.0.1:7890"), "代理: 127.0.0.1:7890");
}

#[test]
fn set_proxy_records_and_labels() {
    let mut s = TrayState::new();
    assert_eq!(s.set_proxy("127.0.0.1:7890".to_string()), "代理: 127.0.0.1:7890");
    assert_eq!(s.proxy_address, "127.0.0.1:7890");
    assert_eq!(s.set_proxy(String::new()), "配置代理...");
    assert_eq!(s.proxy_address, "");
    assert!(s.dock_visible);
}

#[test]
fn menu_ids_map_to_actions() {
    assert_eq!(menu_action("quit"), MenuAction::Quit);
    assert_eq!(menu_action("toggle_dock"), MenuAction::ToggleDock);
    assert_eq!(menu_action("proxy_config"), MenuAction::ConfigureProxy);
    assert_eq!(menu_action("other"), MenuAction::Ignore);
}

#[test]
fn tray_clicks() {
    assert_eq!(tray_click_action(true, Some(true)), ClickAction::HideWindow);
    assert_eq!(tray_click_action(true, Some(false)), ClickAction::ShowWindow);
    assert_eq!(tray_click_action(true, None), ClickAction::Nothing);
    assert_eq!(tray_click_action(false, Some(true)), ClickAction::Nothing);
}

#[test]
fn title_layout() {
    assert_eq!(tray_title("61234.5", true, "1.25%"), "61234.5  ↑1.25%");
    assert_eq!(tray_title("59000.0", false, "0.40%"), "59000.0  ↓0.40%");
}

#[test]
fn dialog_success_sets_trimmed_answer() {
    let r = proxy_dialog_outcome(true, Some(" 127.0.0.1:7890\n".to_string()), "");
    assert!(matches!(r, DialogOutcome::SetProxy(a) if a == "127.0.0.1:7890"));
    let r = proxy_dialog_outcome(true, Some("\n".to_string()), "");
    assert!(matches!(r, DialogOutcome::SetProxy(a) if a.is_empty()));
    assert!(matches!(proxy_dialog_outcome(true, None, ""), DialogOutcome::Unchanged));
}

#[test]
fn dialog_clear_button_and_cancel() {
    let r = proxy_dialog_outcome(false, None, "execution error: 清除代理 (-128)\n");
    assert!(matches!(r, DialogOutcome::ClearProxy));
    let r = proxy_dialog_outcome(false, None, "execution error: User canceled. (-128)\n");
    assert!(matches!(r, DialogOutcome::Unchanged));
}

#[test]
fn dialog_default_and_script() {
    assert_eq!(proxy_dialog_default(""), "127.0.0.1:7890");
    assert_eq!(proxy_dialog_default("10.0.0.1:3128"), "10.0.0.1:3128");
    let help_text = "代理服务器地址\n\n格式: 主机:端口\n示例: 127.0.0.1:7890\n     192.168.1.100:1080";
    let expected = format!(
        r#"
            display dialog "{0}" default answer "{1}" buttons {{"清除代理", "取消", "确定"}} default button "确定" cancel button "取消" with title "代理配置" with icon note
            text returned of result
            "#,
        help_text, "10.0.0.1:3128"
    );
    assert_eq!(proxy_dialog_script("10.0.0.1:3128"), expected);
}

#[test]
fn saved_address_is_trimmed_and_survives_restart() {
    assert_eq!(saved_proxy_address("127.0.0.1:7890\n"), "127.0.0.1:7890");
    assert_eq!(saved_proxy_address(""), "");
    let answer = " 10.0.0.1:3128 \n";
    if let DialogOutcome::SetProxy(saved) = proxy_dialog_outcome(true, Some(answer.to_string()), "") {
        assert_eq!(saved_proxy_address(&saved), saved);
    } else {
        panic!("dialog success must set the proxy");
    }
}
