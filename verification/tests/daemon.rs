use hidpp::daemon::bridge::DaemonCommand;
use hidpp::daemon::config::{parse, validate, Action, Config, ConfigError, GestureConfig, RawConfig};
use hidpp::daemon::gesture::{GestureDirection, GestureResult, GestureTracker};
use hidpp::daemon::listen::{
    command_shuts_down, divert_failure, divert_flags, divert_status, generate_plist, generate_unit,
    is_new_error, listen_step, redivert_requests, DivertFailure, ListenAction, ListenEvent, PowerAssertion,
    DIVERT_FLAGS, DIVERT_RAW_XY_FLAGS,
};
use hidpp::daemon::notify::{
    action_for, can_handle, classify_error, format_hex, handle_notification, pressed_cids,
    DeadlineUpdate, Reaction,
};
use hidpp::features::special_keys::ControlReporting;
use hidpp::types::ControlId;

fn keys(s: &str) -> Option<Action> {
    Some(Action::Keystroke(s.to_string()))
}

fn gesture(threshold: i32) -> GestureConfig {
    GestureConfig {
        up: keys("ctrl+up"),
        down: keys("ctrl+down"),
        left: keys("ctrl+left"),
        right: keys("ctrl+right"),
        tap: keys("playpause"),
        threshold,
    }
}

fn sample_raw() -> RawConfig {
    RawConfig {
        buttons: vec![
            ("83".to_string(), Action::Keystroke("alt+left".to_string())),
            ("86".to_string(), Action::Keystroke("alt+right".to_string())),
        ],
        gestures: vec![("195".to_string(), gesture(75))],
    }
}

#[test]
fn config_parse_buttons_and_gestures() {
    let config = parse(sample_raw()).unwrap();
    assert_eq!(config.buttons.len(), 2);
    assert_eq!(config.gestures.len(), 1);
    assert!(config.is_gesture_cid(195));
    assert!(!config.is_gesture_cid(83));
    let g = &config.gestures[&195];
    assert_eq!(g.threshold, 75);
    assert!(g.up.is_some());
    assert!(g.tap.is_some());
}

#[test]
fn config_all_diverted_cids_combines() {
    let config = parse(sample_raw()).unwrap();
    let cids = config.all_diverted_cids();
    assert_eq!(cids.len(), 3);
    assert!(cids.contains(&83));
    assert!(cids.contains(&86));
    assert_eq!(cids[2], 195);
}

#[test]
fn config_rejects_bad_keys() {
    let mut raw = sample_raw();
    raw.buttons.push(("eighty".to_string(), Action::Keystroke("a".to_string())));
    assert!(matches!(parse(raw), Err(ConfigError::InvalidButtonCid(ref k)) if k == "eighty"));

    let mut raw = sample_raw();
    raw.gestures.push(("70000".to_string(), gesture(50)));
    assert!(matches!(validate(raw), Err(ConfigError::InvalidGestureCid(ref k)) if k == "70000"));
}

#[test]
fn config_rejects_shared_cid() {
    let mut raw = sample_raw();
    raw.buttons.push(("+195".to_string(), Action::Keystroke("a".to_string())));
    assert!(matches!(parse(raw), Err(ConfigError::DuplicateCid(195))));
}

#[test]
fn config_later_entry_wins() {
    let raw = RawConfig {
        buttons: vec![
            ("83".to_string(), Action::Keystroke("a".to_string())),
            ("083".to_string(), Action::Keystroke("b".to_string())),
        ],
        gestures: vec![],
    };
    let config = parse(raw).unwrap();
    assert_eq!(config.buttons.len(), 1);
    assert_eq!(config.buttons[&83].keystroke(), Some("b"));
}

#[test]
fn default_threshold_is_fifty_by_default() {
    assert_eq!(hidpp::daemon::config::default_threshold(), 50);
}

#[test]
fn notification_press_release_gesture() {
    let config = parse(sample_raw()).unwrap();
    let mut t = GestureTracker::new();

    let (rs, d) = handle_notification(0x1B04, 0, &[0x00, 0xC3, 0x00, 0x00], &config, &mut t);
    assert!(rs.is_empty());
    assert_eq!(d, Some(DeadlineUpdate::Arm));

    let (rs, d) = handle_notification(0x1B04, 1, &[0x00, 0x10, 0x00, 0x00], &config, &mut t);
    assert!(rs.is_empty());
    assert_eq!(d, Some(DeadlineUpdate::Clear));
    let (_, _) = handle_notification(0x1B04, 1, &[0xFF, 0x9C, 0x00, 0x05], &config, &mut t);

    let (rs, d) = handle_notification(0x1B04, 0, &[0x00, 0x00], &config, &mut t);
    assert_eq!(d, Some(DeadlineUpdate::Clear));
    assert_eq!(rs.len(), 1);
    match rs[0] {
        Reaction::Gesture { cid, result, action } => {
            assert_eq!(cid, 195);
            assert_eq!(result, GestureResult::Direction(GestureDirection::Left));
            assert_eq!(action.and_then(|a| a.keystroke()), Some("ctrl+left"));
        }
        _ => panic!("expected a gesture"),
    }
}

#[test]
fn notification_button_press() {
    let config = parse(sample_raw()).unwrap();
    let mut t = GestureTracker::new();
    let (rs, d) = handle_notification(0x1B04, 0, &[0x00, 0x53, 0x00, 0x99, 0x00, 0x56], &config, &mut t);
    assert_eq!(d, None);
    assert_eq!(rs.len(), 2);
    match (rs[0], rs[1]) {
        (Reaction::Button { cid: a, action: x }, Reaction::Button { cid: b, action: y }) => {
            assert_eq!((a, b), (83, 86));
            assert_eq!(x.keystroke(), Some("alt+left"));
            assert_eq!(y.keystroke(), Some("alt+right"));
        }
        _ => panic!("expected two button presses"),
    }
}

#[test]
fn notification_battery_and_unhandled() {
    let config = Config::empty();
    let mut t = GestureTracker::new();
    let (rs, d) = handle_notification(0x1004, 0, &[80, 4, 1], &config, &mut t);
    assert_eq!(d, None);
    assert!(matches!(rs[0], Reaction::Battery { percentage: 80, charging: true }));
    let (rs, d) = handle_notification(0x1004, 0, &[80, 4], &config, &mut t);
    assert_eq!(d, None);
    assert!(matches!(rs[0], Reaction::Unhandled));
    let (rs, _) = handle_notification(0x1B04, 1, &[1, 2, 3], &config, &mut t);
    assert!(matches!(rs[0], Reaction::Unhandled));
}

#[test]
fn pressed_cids_stop_at_zero() {
    assert_eq!(pressed_cids(&[0x00, 0xC3, 0x00, 0x53, 0x00, 0x00, 0x00, 0x56]), vec![195, 83]);
    assert_eq!(pressed_cids(&[0x01, 0x02, 0x03]), vec![0x0102]);
    assert!(pressed_cids(&[]).is_empty());
}

#[test]
fn can_handle_checks_overflow() {
    let config = parse(sample_raw()).unwrap();
    let t = GestureTracker::new();
    assert!(can_handle(&t, &config, 0x1B04, 0, &[0, 0]));
    assert!(can_handle(&t, &config, 0x1B04, 1, &[0x7F, 0xFF, 0x80, 0x00]));
}

#[test]
fn action_for_maps_results() {
    let g = gesture(50);
    assert_eq!(action_for(&g, GestureResult::Tap).and_then(|a| a.keystroke()), Some("playpause"));
    assert_eq!(
        action_for(&g, GestureResult::Direction(GestureDirection::Down)).and_then(|a| a.keystroke()),
        Some("ctrl+down")
    );
    let none = GestureConfig { up: None, down: None, left: None, right: None, tap: None, threshold: 50 };
    assert!(action_for(&none, GestureResult::Tap).is_none());
}

#[test]
fn classify_error_messages() {
    assert_eq!(classify_error("no HID++ devices found"), "No device found");
    assert_eq!(classify_error("open failed: not permitted"), "Grant Input Monitoring in System Settings");
    assert_eq!(classify_error("IOHIDDevice open"), "Grant Input Monitoring in System Settings");
    assert_eq!(classify_error("device error: PingFailed"), "Device not responding");
    assert_eq!(classify_error("timeout"), "Connection failed");
}

#[test]
fn format_hex_first_eight() {
    assert_eq!(format_hex(&[0x01, 0xAB, 0xFF]), "01 AB FF");
    assert_eq!(format_hex(&[0, 1, 2, 3, 4, 5, 6, 7, 8, 9]), "00 01 02 03 04 05 06 07");
    assert_eq!(format_hex(&[]), "");
}

#[test]
fn divert_decisions() {
    let config = parse(sample_raw()).unwrap();
    assert_eq!(divert_flags(&config, 195), DIVERT_RAW_XY_FLAGS);
    assert_eq!(divert_flags(&config, 83), DIVERT_FLAGS);
    assert_eq!(DIVERT_RAW_XY_FLAGS, 0x33);
    let r = ControlReporting { cid: ControlId(195), flags: 0x03, remapped_cid: ControlId(0), additional_flags: 0 };
    assert_eq!(divert_status(true, &r), "diverted+rawXY");
    assert_eq!(divert_status(false, &r), "diverted");
    let r = ControlReporting { cid: ControlId(195), flags: 0x01, remapped_cid: ControlId(0), additional_flags: 0 };
    assert_eq!(divert_status(true, &r), "divert+rawXY failed");
    let r = ControlReporting { cid: ControlId(83), flags: 0x00, remapped_cid: ControlId(0), additional_flags: 0 };
    assert_eq!(divert_status(false, &r), "divert failed");
}

#[test]
fn loop_decisions() {
    assert!(command_shuts_down(None));
    assert!(command_shuts_down(Some(DaemonCommand::Shutdown)));
    assert!(!command_shuts_down(Some(DaemonCommand::Reconnect)));
    assert!(!command_shuts_down(Some(DaemonCommand::ReloadConfig)));
    assert!(is_new_error(&None, "x"));
    assert!(!is_new_error(&Some("x".to_string()), "x"));
    assert!(is_new_error(&Some("x".to_string()), "y"));
    assert!(PowerAssertion::prevent_idle_sleep("setup").is_some());
}

#[test]
fn service_files() {
    let unit = generate_unit("/usr/bin/hidppd");
    assert!(unit.starts_with("[Unit]\n"));
    assert!(unit.contains("\nExecStart=/usr/bin/hidppd\nRestart=on-failure\n"));
    assert!(unit.ends_with("WantedBy=default.target"));
    let plist = generate_plist("/Applications/hidppd", "/tmp/hidppd.log");
    assert!(plist.contains("<string>/Applications/hidppd</string>"));
    assert_eq!(plist.matches("<string>/tmp/hidppd.log</string>").count(), 2);
    assert!(plist.ends_with("</plist>"));
}

fn action_from_toml(v: &toml::Value) -> Action {
    match v {
        toml::Value::String(s) => Action::Keystroke(s.clone()),
        toml::Value::Table(t) => {
            let kind = t.get("type").and_then(|k| k.as_str()).unwrap();
            match kind {
                "keystroke" => Action::Explicit(hidpp::daemon::config::ExplicitAction::Keystroke {
                    keys: t.get("keys").and_then(|k| k.as_str()).unwrap().to_string(),
                }),
                _ => Action::Explicit(hidpp::daemon::config::ExplicitAction::Command {
                    run: t.get("run").and_then(|k| k.as_str()).unwrap().to_string(),
                }),
            }
        }
        _ => panic!("not an action"),
    }
}

fn raw_from_toml(content: &str) -> RawConfig {
    let table: toml::Table = toml::from_str(content).unwrap();
    let mut raw = RawConfig { buttons: vec![], gestures: vec![] };
    if let Some(b) = table.get("buttons").and_then(|b| b.as_table()) {
        for (k, v) in b {
            raw.buttons.push((k.clone(), action_from_toml(v)));
        }
    }
    if let Some(g) = table.get("gestures").and_then(|g| g.as_table()) {
        for (k, v) in g {
            let t = v.as_table().unwrap();
            let slot = |name: &str| t.get(name).map(action_from_toml);
            raw.gestures.push((
                k.clone(),
                GestureConfig {
                    up: slot("up"),
                    down: slot("down"),
                    left: slot("left"),
                    right: slot("right"),
                    tap: slot("tap"),
                    threshold: t
                        .get("threshold")
                        .and_then(|x| x.as_integer())
                        .map(|x| x as i32)
                        .unwrap_or_else(hidpp::daemon::config::default_threshold),
                },
            ));
        }
    }
    raw
}

#[test]
fn parse_buttons_and_gestures() {
    let config = parse(raw_from_toml(
        r#"
[buttons]
83 = "alt+left"
86 = "alt+right"

[gestures.195]
up = "ctrl+up"
down = "ctrl+down"
left = "ctrl+left"
right = "ctrl+right"
tap = "playpause"
threshold = 75
"#,
    ))
    .unwrap();
    assert_eq!(config.buttons.len(), 2);
    assert_eq!(config.gestures.len(), 1);
    assert!(config.is_gesture_cid(195));
    assert!(!config.is_gesture_cid(83));

    let g = &config.gestures[&195];
    assert_eq!(g.threshold, 75);
    assert!(g.up.is_some());
    assert!(g.tap.is_some());
}

#[test]
fn default_threshold() {
    let config = parse(raw_from_toml(
        r#"
[gestures.195]
up = "ctrl+up"
"#,
    ))
    .unwrap();
    assert_eq!(config.gestures[&195].threshold, 50);
}

#[test]
fn all_diverted_cids_combines() {
    let config = parse(raw_from_toml(
        r#"
[buttons]
83 = "alt+left"

[gestures.195]
up = "ctrl+up"
"#,
    ))
    .unwrap();
    let cids: Vec<u16> = config.all_diverted_cids();
    assert!(cids.contains(&83));
    assert!(cids.contains(&195));
}

#[test]
fn command_actions_from_toml() {
    let config = parse(raw_from_toml(
        r#"
[buttons]
83 = { type = "command", run = "open -a Safari" }
86 = { type = "keystroke", keys = "cmd+]" }
"#,
    ))
    .unwrap();
    assert_eq!(config.buttons[&83].command(), Some("open -a Safari"));
    assert_eq!(config.buttons[&86].keystroke(), Some("cmd+]"));
}

#[test]
fn listen_deadline_armed_cleared_and_expired() {
    let (d, a) = listen_step(None, ListenEvent::Notified(Some(DeadlineUpdate::Arm)), 1000);
    assert_eq!((d, a), (Some(1150), ListenAction::Continue));
    assert_eq!(listen_step(d, ListenEvent::Tick, 1149), (Some(1150), ListenAction::Continue));
    assert_eq!(listen_step(d, ListenEvent::Tick, 1150), (None, ListenAction::Redivert));
    assert_eq!(listen_step(d, ListenEvent::Notified(Some(DeadlineUpdate::Clear)), 1100), (None, ListenAction::Continue));
    assert_eq!(listen_step(d, ListenEvent::Notified(None), 1100), (Some(1150), ListenAction::Continue));
    assert_eq!(listen_step(None, ListenEvent::Tick, 5000), (None, ListenAction::Continue));
}

#[test]
fn listen_commands_and_disconnects() {
    assert_eq!(listen_step(None, ListenEvent::Command(Some(DaemonCommand::Reconnect)), 0).1, ListenAction::Disconnect);
    assert_eq!(listen_step(None, ListenEvent::Command(Some(DaemonCommand::ReloadConfig)), 0).1, ListenAction::Disconnect);
    assert_eq!(listen_step(None, ListenEvent::Command(Some(DaemonCommand::Shutdown)), 0).1, ListenAction::Shutdown);
    assert_eq!(listen_step(None, ListenEvent::Command(None), 0).1, ListenAction::Shutdown);
    assert_eq!(listen_step(Some(7), ListenEvent::Wake, 0), (Some(7), ListenAction::Disconnect));
    assert_eq!(listen_step(None, ListenEvent::Closed, 0).1, ListenAction::Disconnect);
}

#[test]
fn gesture_buttons_rediverted_with_raw_xy() {
    let config = parse(sample_raw()).unwrap();
    assert_eq!(redivert_requests(&config), vec![(195, DIVERT_RAW_XY_FLAGS)]);
    assert!(redivert_requests(&Config::empty()).is_empty());
    assert_eq!(divert_failure(true), DivertFailure::Fail);
    assert_eq!(divert_failure(false), DivertFailure::Disconnect);
}

#[test]
fn gesture_sums_moves_after_phantom_across_other_buttons() {
    let mut t = GestureTracker::new();
    t.button_pressed(195);
    t.feed_raw_xy(100, 0);
    t.feed_raw_xy(30, 5);
    t.button_pressed(196);
    t.feed_raw_xy(30, 5);
    assert_eq!(t.button_released(196, 50), Some(GestureResult::Tap));
    t.feed_raw_xy(-10, 0);
    assert_eq!(t.held(195).map(|g| (g.dx, g.dy, g.first_xy_discarded)), Some((50, 10, true)));
    assert_eq!(t.button_released(195, 50), Some(GestureResult::Direction(GestureDirection::Right)));
    assert_eq!(t.button_released(195, 50), None);
    // A second press starts over: earlier movement is gone.
    t.button_pressed(195);
    t.feed_raw_xy(500, 500);
    t.button_pressed(195);
    assert_eq!(t.button_released(195, 1), Some(GestureResult::Tap));
}
