use hidpp::daemon::bridge::{DaemonCommand, DaemonEvent};
use hidpp::daemon::config::Action;
use hidpp::daemon::gesture::{GestureDirection, GestureResult};
use hidpp::daemon::notify::{action_description, reaction_summary, Reaction};
use hidpp::daemon::tray::{message_cuttable, MenuAction, MenuItemKind, TrayView};

#[test]
fn tray_starts_empty() {
    let v = TrayView::new();
    assert_eq!(v.device_text, "No device");
    assert_eq!(v.battery_text, "Battery: --");
    assert_eq!(v.dpi_text, "DPI: --");
    assert_eq!(v.last_action_text, "Last: --");
    assert_eq!(v.title, "--");
    assert_eq!(v.reconnect_text, "Reconnect");
    assert!(!v.connected_icon && !v.exit);
}

#[test]
fn tray_connected_and_battery() {
    let mut v = TrayView::new();
    v.on_event(&DaemonEvent::Connected { name: "MX Master 3S".to_string(), battery_pct: Some(85), dpi: Some(1600) });
    assert_eq!(v.device_text, "MX Master 3S");
    assert_eq!(v.battery_text, "Battery: 85%");
    assert_eq!(v.title, "85%");
    assert_eq!(v.dpi_text, "DPI: 1600");
    assert!(v.connected_icon);
    v.on_event(&DaemonEvent::BatteryUpdate { percentage: 84, charging: true });
    assert_eq!(v.battery_text, "Battery: 84% ⚡");
    assert_eq!(v.title, "84%");
    v.on_event(&DaemonEvent::ActionExecuted { description: "tap → playpause".to_string() });
    assert_eq!(v.last_action_text, "Last: tap → playpause");
    v.on_event(&DaemonEvent::Connected { name: "K".to_string(), battery_pct: None, dpi: None });
    assert_eq!(v.battery_text, "Battery: --");
    assert_eq!(v.title, "");
    assert_eq!(v.dpi_text, "DPI: 1600");
    v.on_event(&DaemonEvent::Disconnected);
    assert_eq!(v.device_text, "Searching...");
    assert_eq!(v.dpi_text, "DPI: --");
    assert!(!v.connected_icon);
}

#[test]
fn tray_permission_errors() {
    let mut v = TrayView::new();
    v.on_event(&DaemonEvent::Error("Grant Input Monitoring in System Settings".to_string()));
    assert_eq!(v.device_text, "Grant Input Monitoring in System Setting →");
    assert!(v.device_enabled);
    assert!(v.permission_error);
    assert_eq!(v.reconnect_text, "Relaunch");
    assert_eq!(v.on_menu(MenuItemKind::Reconnect, false), MenuAction::Send { command: DaemonCommand::Shutdown, exit: true });
    assert!(matches!(v.on_menu(MenuItemKind::Device, false), MenuAction::OpenUrl(u) if u.ends_with("Privacy_ListenEvent")));
    v.on_event(&DaemonEvent::Connected { name: "M".to_string(), battery_pct: None, dpi: None });
    assert!(!v.permission_error);
    assert_eq!(v.reconnect_text, "Reconnect");
    assert_eq!(v.on_menu(MenuItemKind::Reconnect, false), MenuAction::Send { command: DaemonCommand::Reconnect, exit: false });
    assert_eq!(v.on_menu(MenuItemKind::Device, false), MenuAction::Nothing);
}

#[test]
fn tray_other_errors_are_cut() {
    let mut v = TrayView::new();
    let long = "Connection failed because the device went away unexpectedly".to_string();
    assert!(message_cuttable(&long));
    v.on_event(&DaemonEvent::Error(long));
    assert_eq!(v.device_text, "Error: Connection failed because the device wen");
    assert!(!v.device_enabled);
    assert!(!message_cuttable(&"€".repeat(20)));
    assert!(message_cuttable(&"é".repeat(30)));
    assert!(message_cuttable("short é"));
}

#[test]
fn tray_menu_actions() {
    let mut v = TrayView::new();
    assert_eq!(v.on_menu(MenuItemKind::Quit, true), MenuAction::Send { command: DaemonCommand::Shutdown, exit: true });
    assert_eq!(v.on_menu(MenuItemKind::StartAtLogin, true), MenuAction::SetLoginItem(false));
    assert_eq!(v.on_menu(MenuItemKind::StartAtLogin, false), MenuAction::SetLoginItem(true));
    assert_eq!(v.on_menu(MenuItemKind::EditConfig, false), MenuAction::EditConfig);
    v.on_event(&DaemonEvent::Shutdown);
    assert!(v.exit);
}

#[test]
fn reaction_descriptions() {
    let up = Action::Keystroke("ctrl+up".to_string());
    let r = Reaction::Gesture { cid: 195, result: GestureResult::Direction(GestureDirection::Up), action: Some(&up) };
    assert_eq!(reaction_summary(&r).as_deref(), Some("swipe up → ctrl+up"));
    let r = Reaction::Button { cid: 83, action: &up };
    assert_eq!(reaction_summary(&r).as_deref(), Some("ctrl+up"));
    let r = Reaction::Gesture { cid: 195, result: GestureResult::Tap, action: None };
    assert_eq!(reaction_summary(&r), None);
    assert_eq!(reaction_summary(&Reaction::Unhandled), None);
    let cmd = Action::Explicit(hidpp::daemon::config::ExplicitAction::Command { run: "ls".to_string() });
    assert_eq!(action_description(&cmd), "ls");
}
