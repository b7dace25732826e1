use hidpp::daemon::config::{Action, ExplicitAction};
use hidpp::daemon::keys::{execute, key_of_lowercase_str, parse_key, parse_keystroke, ActionPlan, Key};

#[test]
fn parse_modifiers() {
    assert!(matches!(parse_key("ctrl"), Some(Key::Control)));
    assert!(matches!(parse_key("Ctrl"), Some(Key::Control)));
    assert!(matches!(parse_key("CMD"), Some(Key::Meta)));
    assert!(matches!(parse_key("shift"), Some(Key::Shift)));
    assert!(matches!(parse_key("alt"), Some(Key::Alt)));
}

#[test]
fn parse_arrows() {
    assert!(matches!(parse_key("left"), Some(Key::LeftArrow)));
    assert!(matches!(parse_key("Right"), Some(Key::RightArrow)));
    assert!(matches!(parse_key("UP"), Some(Key::UpArrow)));
}

#[test]
fn parse_single_char() {
    assert!(matches!(parse_key("a"), Some(Key::Unicode('a'))));
    assert!(matches!(parse_key("z"), Some(Key::Unicode('z'))));
    assert!(matches!(parse_key("1"), Some(Key::Unicode('1'))));
}

#[test]
fn parse_function_keys() {
    assert!(matches!(parse_key("f1"), Some(Key::F1)));
    assert!(matches!(parse_key("F12"), Some(Key::F12)));
}

#[test]
fn parse_unknown() {
    assert!(parse_key("nonexistent").is_none());
}

#[test]
fn parse_media_and_aliases() {
    assert_eq!(parse_key("PlayPause"), Some(Key::MediaPlayPause));
    assert_eq!(parse_key("volup"), Some(Key::VolumeUp));
    assert_eq!(parse_key("esc"), Some(Key::Escape));
    assert_eq!(parse_key("A"), Some(Key::Unicode('a')));
    assert_eq!(parse_key(""), None);
    assert_eq!(parse_key("é"), None);
}

#[test]
fn keystroke_with_modifiers() {
    let combo = parse_keystroke("ctrl+shift+left").unwrap();
    assert_eq!(combo.modifiers, vec![Key::Control, Key::Shift]);
    assert_eq!(combo.key, Key::LeftArrow);
}

#[test]
fn keystroke_trims_and_skips_unknown_modifiers() {
    let combo = parse_keystroke(" Ctrl + bogus + Tab ").unwrap();
    assert_eq!(combo.modifiers, vec![Key::Control]);
    assert_eq!(combo.key, Key::Tab);
}

#[test]
fn keystroke_unknown_main_key() {
    assert!(parse_keystroke("ctrl+nosuchkey").is_none());
    assert!(parse_keystroke("ctrl+").is_none());
}

#[test]
fn execute_plans_keys_and_commands() {
    let plan = execute(&Action::Keystroke("alt+left".to_string()));
    match plan {
        ActionPlan::Keys(c) => {
            assert_eq!(c.modifiers, vec![Key::Alt]);
            assert_eq!(c.key, Key::LeftArrow);
        }
        _ => panic!("expected keys"),
    }
    let plan = execute(&Action::Explicit(ExplicitAction::Command { run: "echo hi".to_string() }));
    assert!(matches!(plan, ActionPlan::Run(ref c) if c == "echo hi"));
    let plan = execute(&Action::Explicit(ExplicitAction::Keystroke { keys: "ctrl+bogus".to_string() }));
    assert!(matches!(plan, ActionPlan::UnknownKey(ref k) if k == "ctrl+bogus"));
}

#[test]
fn lowercase_key_names() {
    assert!(matches!(key_of_lowercase_str("ctrl"), Some(Key::Control)));
    assert!(matches!(key_of_lowercase_str("pageup"), Some(Key::PageUp)));
    assert!(matches!(key_of_lowercase_str("a"), Some(Key::Unicode('a'))));
    assert!(key_of_lowercase_str("Ctrl").is_none());
    assert!(key_of_lowercase_str("é").is_none());
}
