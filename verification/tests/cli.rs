use hidpp::cli::{
    apply_smart_shift_value, apply_wheel_value, parse_device_index, parse_dpi_value, parse_feature_id,
    parse_get_setting, parse_hex_bytes, parse_set_setting, GetSetting, SetSetting,
};
use hidpp::daemon::config::{has_command_action, Action, ExplicitAction, GestureConfig, RawConfig};
use hidpp::daemon::listen::url_config_refused;
use hidpp::device::table::FeatureTable;
use hidpp::device::table::FeatureEntry;
use hidpp::features::hires_wheel;
use hidpp::features::smart_shift::{SmartShiftState, WheelMode};
use hidpp::text::{append_decimal, append_decimal_u64, contains_str, trim_end_nuls};
use hidpp::types::{FeatureFlags, FeatureId, FeatureIndex};
use hidpp::web::{export_config_text, frame_input_report, supported_sections};

#[test]
fn feature_ids_in_hex() {
    assert_eq!(parse_feature_id("0x2110"), Some(0x2110));
    assert_eq!(parse_feature_id("1b04"), Some(0x1B04));
    assert_eq!(parse_feature_id("0x0x1D4B"), Some(0x1D4B));
    assert_eq!(parse_feature_id("+ff"), Some(0xFF));
    assert_eq!(parse_feature_id("10000"), None);
    assert_eq!(parse_feature_id("0x"), None);
    assert_eq!(parse_feature_id("xyz"), None);
}

#[test]
fn device_index_in_hex() {
    assert_eq!(parse_device_index("FF"), Some(0xFF));
    assert_eq!(parse_device_index("0xff"), Some(0xFF));
    assert_eq!(parse_device_index("0X01"), Some(1));
    assert_eq!(parse_device_index("100"), None);
}

#[test]
fn hex_parameter_bytes() {
    assert_eq!(parse_hex_bytes("01 32 53"), Some(vec![0x01, 0x32, 0x53]));
    assert_eq!(parse_hex_bytes("  0xAB\tff  "), Some(vec![0xAB, 0xFF]));
    assert_eq!(parse_hex_bytes(""), Some(vec![]));
    assert_eq!(parse_hex_bytes("01 zz"), None);
    assert_eq!(parse_hex_bytes("100"), None);
}

#[test]
fn setting_names() {
    assert_eq!(parse_get_setting("fw"), Some(GetSetting::Firmware));
    assert_eq!(parse_get_setting("battery"), Some(GetSetting::Battery));
    assert_eq!(parse_get_setting("volume"), None);
    assert_eq!(parse_set_setting("wheel"), Some(SetSetting::Wheel));
    assert_eq!(parse_set_setting("battery"), None);
    assert_eq!(parse_dpi_value("1600"), Some(1600));
    assert_eq!(parse_dpi_value("70000"), None);
}

#[test]
fn smart_shift_values() {
    let state = SmartShiftState { mode: WheelMode::Ratchet, auto_disengage: 10, tunable_torque: 20 };
    assert_eq!(apply_smart_shift_value(&state, "free").map(|s| s.mode), Some(WheelMode::FreeScroll));
    assert_eq!(apply_smart_shift_value(&state, "ratchet").map(|s| s.mode), Some(WheelMode::Ratchet));
    let s = apply_smart_shift_value(&state, "30").unwrap();
    assert_eq!((s.mode, s.auto_disengage, s.tunable_torque), (WheelMode::Ratchet, 30, 20));
    assert!(apply_smart_shift_value(&state, "256").is_none());
    assert!(apply_smart_shift_value(&state, "fast").is_none());
}

#[test]
fn wheel_values() {
    let mode = hires_wheel::WheelMode { diverted: false, high_resolution: false, inverted: true, analytics: false, priority: 1, rate: 2 };
    assert!(apply_wheel_value(&mode, "hires").unwrap().high_resolution);
    assert!(!apply_wheel_value(&mode, "lowres").unwrap().high_resolution);
    assert!(!apply_wheel_value(&mode, "invert").unwrap().inverted);
    assert!(apply_wheel_value(&mode, "smooth").is_none());
}

#[test]
fn url_configs_with_commands_refused() {
    let command = RawConfig {
        buttons: vec![("83".to_string(), Action::Explicit(ExplicitAction::Command { run: "ls".to_string() }))],
        gestures: vec![],
    };
    let keys = RawConfig {
        buttons: vec![("83".to_string(), Action::Keystroke("alt+left".to_string()))],
        gestures: vec![],
    };
    assert!(url_config_refused("[buttons]\n83 = { type = \"command\", run = \"ls\" }", &command));
    assert!(!url_config_refused("[buttons]\n83 = \"alt+left\"", &keys));
    // The action type spelled with an escape is still a command.
    assert!(url_config_refused("[buttons]\n83 = { type = \"\\u0063ommand\", run = \"ls\" }", &command));
}

#[test]
fn command_actions_found_in_buttons_and_gesture_slots() {
    let keys = |s: &str| Some(Action::Keystroke(s.to_string()));
    let mut g = GestureConfig { up: keys("ctrl+up"), down: None, left: None, right: None, tap: keys("playpause"), threshold: 50 };
    let mut raw = RawConfig { buttons: vec![("83".to_string(), Action::Keystroke("alt+left".to_string()))], gestures: vec![("195".to_string(), g.clone())] };
    assert!(!has_command_action(&raw));
    g.tap = Some(Action::Explicit(ExplicitAction::Command { run: "ls".to_string() }));
    raw.gestures = vec![("195".to_string(), g)];
    assert!(has_command_action(&raw));
    let raw = RawConfig {
        buttons: vec![("86".to_string(), Action::Explicit(ExplicitAction::Keystroke { keys: "alt+right".to_string() }))],
        gestures: vec![],
    };
    assert!(!has_command_action(&raw));
}

#[test]
fn web_input_reports_framed() {
    let r = frame_input_report(0x11, &[0xFF, 0x02, 0x11, 0x42]).unwrap();
    assert_eq!(&r.as_bytes()[..6], &[0x11, 0xFF, 0x02, 0x11, 0x42, 0x00]);
    let long = [7u8; 30];
    let r = frame_input_report(0x11, &long).unwrap();
    assert_eq!(r.as_bytes()[19], 7);
    assert!(frame_input_report(0x10, &[1, 2]).is_none());
}

#[test]
fn web_sections_and_export() {
    let mut t = FeatureTable::new();
    t.insert(FeatureEntry { id: FeatureId(0x2121), index: FeatureIndex(5), flags: FeatureFlags::empty(), version: 0 });
    t.insert(FeatureEntry { id: FeatureId(0x2201), index: FeatureIndex(6), flags: FeatureFlags::empty(), version: 0 });
    let s = supported_sections(&t);
    assert!(s.dpi && s.scroll && !s.buttons && !s.battery);
    assert_eq!(
        export_config_text("MX", Some(1600), Some("ratchet")),
        "[device]\nname = \"MX\"\n\n[dpi]\nvalue = 1600\n\n[smartshift]\nmode = \"ratchet\"\n"
    );
    assert_eq!(export_config_text("K", None, None), "[device]\nname = \"K\"\n");
}

#[test]
fn text_helpers() {
    let mut s = String::new();
    append_decimal(&mut s, 205);
    s.push('/');
    append_decimal_u64(&mut s, 65535);
    assert_eq!(s, "205/65535");
    assert!(contains_str("hello world", "o w"));
    assert!(!contains_str("hello", "hello!"));
    assert_eq!(trim_end_nuls("MPM\0\0"), "MPM");
}
