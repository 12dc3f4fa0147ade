use just_talk::config::{
    Config, HotkeyTrigger, OutputConfig, RefineBackend, TranscribeBackend, DEFAULT_SYSTEM_PROMPT,
    model_path_under,
};
use std::path::PathBuf;

#[test]
fn test_load_or_default_no_file() {
    let cfg = Config::load_or_default(None);
    assert_eq!(cfg.hotkey.key, "F4");
}

#[test]
fn defaults_of_every_section() {
    let cfg = Config::default();
    assert_eq!(cfg.hotkey.key, "F4");
    assert!(cfg.hotkey.modifiers.is_empty());
    assert_eq!(cfg.hotkey.trigger, HotkeyTrigger::DoubleTap);
    assert_eq!(cfg.transcribe.backend, TranscribeBackend::Local);
    assert_eq!(cfg.transcribe.language.as_deref(), Some("auto"));
    assert_eq!(cfg.transcribe.openai_model, "whisper-1");
    assert_eq!(cfg.refine.backend, RefineBackend::Passthrough);
    assert_eq!(cfg.refine.model, "");
    assert_eq!(cfg.refine.system_prompt, DEFAULT_SYSTEM_PROMPT);
    assert_eq!(
        cfg.output,
        OutputConfig { prefer_inject: true, inject_delay_ms: 20, clipboard_fallback: true }
    );
    if let Some(p) = &cfg.transcribe.model_path {
        assert!(p.ends_with("just-talk/models/ggml-base.bin"));
    }
}

#[test]
fn load_or_default_keeps_a_loaded_config() {
    let mut c = Config::default();
    c.hotkey.key = "CapsLock".to_string();
    let cfg = Config::load_or_default(Some(Ok(c)));
    assert_eq!(cfg.hotkey.key, "CapsLock");
    let cfg = Config::load_or_default(Some(Err("expected `=`".to_string())));
    assert_eq!(cfg.hotkey.key, "F4");
}

#[test]
fn find_path_priorities() {
    let p = |s: &str| PathBuf::from(s);
    // CLI beats everything.
    assert_eq!(
        Config::find_path(Some(p("/cli.toml")), Some(p("/env.toml")), Some(p("/u.toml")), true, p("config.toml"), true),
        Some(p("/cli.toml"))
    );
    // Then the environment variable.
    assert_eq!(
        Config::find_path(None, Some(p("/env.toml")), Some(p("/u.toml")), true, p("config.toml"), true),
        Some(p("/env.toml"))
    );
    // Then the user config file, if it exists.
    assert_eq!(
        Config::find_path(None, None, Some(p("/u.toml")), true, p("config.toml"), true),
        Some(p("/u.toml"))
    );
    assert_eq!(
        Config::find_path(None, None, Some(p("/u.toml")), false, p("config.toml"), true),
        Some(p("config.toml"))
    );
    assert_eq!(Config::find_path(None, None, None, false, p("config.toml"), false), None);
}

#[test]
fn model_path_sits_under_the_data_dir() {
    let p = model_path_under(Some(PathBuf::from("/data"))).unwrap();
    assert_eq!(p, PathBuf::from("/data/just-talk/models/ggml-base.bin"));
    assert!(model_path_under(None).is_none());
}

#[test]
fn default_model_path_ends_in_model_file() {
    let cfg = Config::load_or_default(None);
    if let Some(p) = cfg.transcribe.model_path {
        assert!(p.ends_with("just-talk/models/ggml-base.bin"));
    }
}
