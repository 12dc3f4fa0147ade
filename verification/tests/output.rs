use just_talk::config::OutputConfig;
use just_talk::output::focus::{get_focused_element_type, FocusedElement};
use just_talk::output::inject::type_chunks;
use just_talk::output::{OutputManager, OutputStep};

#[test]
fn get_focused_element_type_does_not_panic() {
    // On all platforms this should return without panicking.
    let _ = get_focused_element_type();
}

#[test]
fn focused_element_debug() {
    assert_eq!(format!("{:?}", FocusedElement::TextInput), "TextInput");
    assert_eq!(format!("{:?}", FocusedElement::Unknown), "Unknown");
}

fn default_manager() -> OutputManager {
    OutputManager::new(&OutputConfig::default())
}

#[test]
fn output_manager_new_does_not_panic() {
    let _ = default_manager();
}

#[test]
fn prefer_inject_false_config() {
    let cfg = OutputConfig { prefer_inject: false, ..OutputConfig::default() };
    let m = OutputManager::new(&cfg);
    assert!(!m.config.prefer_inject);
}

/// Compile-time guard: ensures output module is reachable.
#[test]
fn placeholder_output() {}

#[test]
fn focus_is_unknown_everywhere() {
    assert_eq!(get_focused_element_type(), FocusedElement::Unknown);
}

#[test]
fn output_steps_follow_config_and_focus() {
    let m = default_manager();
    assert_eq!(m.first_step(FocusedElement::Unknown), OutputStep::WriteClipboard);
    assert_eq!(m.first_step(FocusedElement::TextInput), OutputStep::Inject { delay_ms: 20 });
    assert_eq!(m.first_step(FocusedElement::Other), OutputStep::WriteClipboard);
    assert_eq!(m.after_failed_injection(), OutputStep::WriteClipboard);

    let no_fallback = OutputManager::new(&OutputConfig {
        prefer_inject: true,
        inject_delay_ms: 0,
        clipboard_fallback: false,
    });
    assert_eq!(no_fallback.first_step(FocusedElement::Other), OutputStep::Drop);
    assert_eq!(no_fallback.first_step(FocusedElement::Unknown), OutputStep::Drop);
    assert_eq!(no_fallback.after_failed_injection(), OutputStep::Drop);

    let clipboard_only = OutputManager::new(&OutputConfig {
        prefer_inject: false,
        inject_delay_ms: 0,
        clipboard_fallback: false,
    });
    assert_eq!(clipboard_only.first_step(FocusedElement::TextInput), OutputStep::WriteClipboard);
}

#[test]
fn injection_chunks() {
    assert_eq!(type_chunks("你好 ok", 0), vec!["你好 ok".to_string()]);
    assert_eq!(type_chunks("你好 ok", 5), vec!["你", "好", " ", "o", "k"]);
    assert!(type_chunks("", 5).is_empty());
}
