use just_talk::config::{HotkeyConfig, HotkeyTrigger};
use just_talk::hotkey::{
    key_to_vkcode, parse_config, parse_key, process_event, EventType, HotkeyListener, HotkeyManager,
    Key, ModifierGroup, PressedKeys, TapPoller,
};

// ----- parse_key -----

#[test]
fn parse_function_keys() {
    assert_eq!(parse_key("F4").unwrap(), Key::F4);
    assert_eq!(parse_key("F1").unwrap(), Key::F1);
    assert_eq!(parse_key("F12").unwrap(), Key::F12);
}

#[test]
fn parse_special_keys() {
    assert_eq!(parse_key("CapsLock").unwrap(), Key::CapsLock);
    assert_eq!(parse_key("Space").unwrap(), Key::Space);
    assert_eq!(parse_key("Return").unwrap(), Key::Return);
    assert_eq!(parse_key("Enter").unwrap(), Key::Return);
    assert_eq!(parse_key("Esc").unwrap(), Key::Escape);
    assert_eq!(parse_key("Left").unwrap(), Key::LeftArrow);
    assert_eq!(parse_key("PageUp").unwrap(), Key::PageUp);
}

#[test]
fn parse_letter_keys_case_insensitive() {
    assert_eq!(parse_key("A").unwrap(), Key::KeyA);
    assert_eq!(parse_key("a").unwrap(), Key::KeyA);
    assert_eq!(parse_key("Z").unwrap(), Key::KeyZ);
}

#[test]
fn parse_digit_keys() {
    assert_eq!(parse_key("0").unwrap(), Key::Num0);
    assert_eq!(parse_key("9").unwrap(), Key::Num9);
}

#[test]
fn parse_key_unknown_is_err() {
    assert!(parse_key("XYZ").is_err());
    assert!(parse_key("").is_err());
    assert!(parse_key("@").is_err());
}

#[test]
fn parse_key_meta_aliases_and_messages() {
    assert_eq!(parse_key("RightMeta").unwrap(), Key::MetaRight);
    assert_eq!(parse_key("RightCmd").unwrap(), Key::MetaRight);
    assert_eq!(parse_key("LeftWin").unwrap(), Key::MetaLeft);
    assert_eq!(parse_key("f4").unwrap_err().into_detail().starts_with("Unknown key: 'f4'. Supported:"), true);
    assert_eq!(parse_key("@").unwrap_err().into_detail(), "Unknown key character: '@'");
    // A single non-ASCII character is not a key character.
    assert!(parse_key("é").unwrap_err().into_detail().starts_with("Unknown key: 'é'"));
}

#[test]
fn vkcodes_of_keys() {
    assert_eq!(key_to_vkcode(Key::F4), Some(0x76));
    assert_eq!(key_to_vkcode(Key::MetaRight), Some(0x36));
    assert_eq!(key_to_vkcode(Key::KeyA), Some(0x00));
    assert_eq!(key_to_vkcode(Key::Other), None);
}

// ----- ModifierGroup -----

#[test]
fn modifier_from_str_all_aliases() {
    assert_eq!(ModifierGroup::from_str("Ctrl").unwrap(), ModifierGroup::Ctrl);
    assert_eq!(ModifierGroup::from_str("control").unwrap(), ModifierGroup::Ctrl);
    assert_eq!(ModifierGroup::from_str("SHIFT").unwrap(), ModifierGroup::Shift);
    assert_eq!(ModifierGroup::from_str("alt").unwrap(), ModifierGroup::Alt);
    assert_eq!(ModifierGroup::from_str("option").unwrap(), ModifierGroup::Alt);
    assert_eq!(ModifierGroup::from_str("cmd").unwrap(), ModifierGroup::Meta);
    assert_eq!(ModifierGroup::from_str("Meta").unwrap(), ModifierGroup::Meta);
    assert_eq!(ModifierGroup::from_str("win").unwrap(), ModifierGroup::Meta);
}

#[test]
fn modifier_from_str_unknown_is_err() {
    assert!(ModifierGroup::from_str("HyperKey").is_err());
}

#[test]
fn modifier_unknown_message_is_lowercased() {
    let e = ModifierGroup::from_str("HyperKey").unwrap_err();
    assert_eq!(e.into_detail(), "Unknown modifier: 'hyperkey'");
    assert_eq!(ModifierGroup::from_str("RCmd").unwrap(), ModifierGroup::MetaRight);
}

#[test]
fn ctrl_accepts_left_and_right() {
    let mg = ModifierGroup::Ctrl;
    let mut p = PressedKeys::new();
    assert!(!mg.is_active(&p));
    p.insert(Key::ControlLeft);
    assert!(mg.is_active(&p));
    p = PressedKeys::new();
    p.insert(Key::ControlRight);
    assert!(mg.is_active(&p));
}

#[test]
fn shift_accepts_left_and_right() {
    let mg = ModifierGroup::Shift;
    let mut p = PressedKeys::new();
    p.insert(Key::ShiftRight);
    assert!(mg.is_active(&p));
}

// ----- process_event -----

fn press(key: Key) -> EventType {
    EventType::KeyPress(key)
}
fn release(key: Key) -> EventType {
    EventType::KeyRelease(key)
}

#[test]
fn fires_on_target_key_alone() {
    let mut p = PressedKeys::new();
    assert!(process_event(&press(Key::F4), Key::F4, &[], &mut p));
}

#[test]
fn does_not_fire_on_wrong_key() {
    let mut p = PressedKeys::new();
    assert!(!process_event(&press(Key::F5), Key::F4, &[], &mut p));
}

#[test]
fn does_not_fire_on_key_release() {
    let mut p = PressedKeys::new();
    process_event(&press(Key::F4), Key::F4, &[], &mut p);
    assert!(!process_event(&release(Key::F4), Key::F4, &[], &mut p));
}

#[test]
fn requires_modifier_held_before_target() {
    let mods = [ModifierGroup::Ctrl];
    let mut p = PressedKeys::new();

    assert!(!process_event(&press(Key::F4), Key::F4, &mods, &mut p));

    let mut p = PressedKeys::new();
    process_event(&press(Key::ControlLeft), Key::F4, &mods, &mut p);
    assert!(process_event(&press(Key::F4), Key::F4, &mods, &mut p));
}

#[test]
fn releases_remove_key_from_pressed_set() {
    let mut p = PressedKeys::new();
    process_event(&press(Key::ControlLeft), Key::F4, &[], &mut p);
    assert!(p.contains(Key::ControlLeft));
    process_event(&release(Key::ControlLeft), Key::F4, &[], &mut p);
    assert!(!p.contains(Key::ControlLeft));
}

#[test]
fn all_modifiers_must_be_held() {
    let mods = [ModifierGroup::Ctrl, ModifierGroup::Shift];
    let mut p = PressedKeys::new();

    process_event(&press(Key::ControlLeft), Key::F4, &mods, &mut p);
    assert!(!process_event(&press(Key::F4), Key::F4, &mods, &mut p));

    let mut p = PressedKeys::new();
    process_event(&press(Key::ControlLeft), Key::F4, &mods, &mut p);
    process_event(&press(Key::ShiftLeft), Key::F4, &mods, &mut p);
    assert!(process_event(&press(Key::F4), Key::F4, &mods, &mut p));
}

#[test]
fn non_key_events_are_ignored() {
    let mut p = PressedKeys::new();
    let mouse_move = EventType::Other;
    assert!(!process_event(&mouse_move, Key::F4, &[], &mut p));
}

// ----- config, listener, poller -----

fn hotkey_config(key: &str, mods: &[&str], trigger: HotkeyTrigger) -> HotkeyConfig {
    HotkeyConfig {
        key: key.to_string(),
        modifiers: mods.iter().map(|m| m.to_string()).collect(),
        trigger,
        double_tap_ms: 300,
    }
}

#[test]
fn parse_config_results() {
    let (k, mods, dt) = parse_config(&hotkey_config("F5", &["ctrl", "Shift"], HotkeyTrigger::Single)).unwrap();
    assert_eq!(k, Key::F5);
    assert_eq!(mods, vec![ModifierGroup::Ctrl, ModifierGroup::Shift]);
    assert_eq!(dt, None);
    let (_, _, dt) = parse_config(&hotkey_config("F5", &[], HotkeyTrigger::DoubleTap)).unwrap();
    assert_eq!(dt, Some(300));
    let e = parse_config(&hotkey_config("Nope", &[], HotkeyTrigger::Single)).unwrap_err();
    assert!(e.into_detail().starts_with("Invalid hotkey key 'Nope': Unknown key: 'Nope'"));
    let e = parse_config(&hotkey_config("F5", &["ctrl", "Hyper", "Bogus"], HotkeyTrigger::Single)).unwrap_err();
    assert_eq!(e.into_detail(), "Unknown modifier: 'hyper'");
}

#[test]
fn listener_single_mode_fires_each_press() {
    let mut l = HotkeyManager::listener(&hotkey_config("F4", &[], HotkeyTrigger::Single)).unwrap();
    assert!(l.on_event(&press(Key::F4), 0));
    assert!(!l.on_event(&release(Key::F4), 10));
    assert!(l.on_event(&press(Key::F4), 5000));
}

#[test]
fn listener_double_tap_needs_quick_second_press() {
    let mut l = HotkeyManager::listener(&hotkey_config("RightCmd", &[], HotkeyTrigger::DoubleTap)).unwrap();
    assert!(!l.on_event(&press(Key::MetaRight), 1000));
    assert!(!l.on_event(&release(Key::MetaRight), 1050));
    assert!(l.on_event(&press(Key::MetaRight), 1200));
    assert!(!l.on_event(&release(Key::MetaRight), 1250));
    // Too slow: 400 ms after the release.
    assert!(!l.on_event(&press(Key::MetaRight), 1650));
    // Other keys in between do not fire.
    assert!(!l.on_event(&press(Key::KeyA), 1660));
}

#[test]
fn poller_double_tap_and_single() {
    let mut p = TapPoller::new(Some(300));
    assert!(!p.on_sample(true, 0));
    assert!(!p.on_sample(true, 5));
    assert!(!p.on_sample(false, 100));
    assert!(p.on_sample(true, 250));
    assert!(!p.on_sample(false, 300));
    assert!(!p.on_sample(true, 700));

    let mut s = TapPoller::new(None);
    assert!(s.on_sample(true, 0));
    assert!(!s.on_sample(true, 5));
    assert!(!s.on_sample(false, 10));
    assert!(s.on_sample(true, 15));
}

#[test]
fn poll_plan_for_right_command() {
    let plan = HotkeyManager::poll_plan(&hotkey_config("RightCmd", &["ctrl"], HotkeyTrigger::DoubleTap)).unwrap();
    assert_eq!(plan.target_vkcode, 0x36);
    assert_eq!(plan.target_nx_flag, Some(0x10));
    assert_eq!(plan.mod_codes, vec![vec![0x3B, 0x3E]]);
    assert_eq!(plan.double_tap_ms, Some(300));
    let plan = HotkeyManager::poll_plan(&hotkey_config("F4", &[], HotkeyTrigger::Single)).unwrap();
    assert_eq!(plan.target_vkcode, 0x76);
    assert_eq!(plan.target_nx_flag, None);
    assert!(HotkeyManager::poll_plan(&hotkey_config("F13", &[], HotkeyTrigger::Single)).is_err());
}
