use just_talk::app::{output_event, transcription_event, App, AppEvent, AppState, Effect, EventLoop};
use just_talk::config::Config;
use just_talk::error::JustTalkError;

fn new_loop(dry_run: bool, with_path: bool) -> EventLoop {
    let path = if with_path { Some(std::path::PathBuf::from("/tmp/jt.toml")) } else { None };
    EventLoop::new(App::new(Config::load_or_default(None), path, dry_run))
}

fn notify_body(e: &Effect) -> Option<String> {
    match e {
        Effect::Notify { title, body } => {
            assert_eq!(title, "just-talk");
            Some(body.clone())
        }
        _ => None,
    }
}

#[test]
fn loop_full_cycle_effects() {
    let mut lp = new_loop(false, false);
    assert_eq!(lp.state(), AppState::Idle);
    assert_eq!(
        notify_body(&lp.greeting()).as_deref(),
        Some("Ready — press F4 to record")
    );

    let fx = lp.handle(AppEvent::HotkeyPressed);
    assert_eq!(fx.len(), 1);
    assert!(matches!(fx[0], Effect::StartRecording));
    assert_eq!(lp.state(), AppState::Idle);

    let fx = lp.recording_started(Ok(()));
    assert_eq!(lp.state(), AppState::Recording);
    assert!(matches!(fx[0], Effect::OverlayRecording));
    assert_eq!(notify_body(&fx[1]).as_deref(), Some("Recording…"));

    let fx = lp.handle(AppEvent::HotkeyPressed);
    assert_eq!(lp.state(), AppState::Transcribing);
    assert_eq!(fx.len(), 3);
    assert!(matches!(&fx[0], Effect::OverlayProcessing(l) if l == "Transcribing…"));
    assert_eq!(notify_body(&fx[1]).as_deref(), Some("Transcribing…"));
    assert!(matches!(fx[2], Effect::StopRecording));

    let fx = lp.recording_stopped(Ok(()));
    assert!(matches!(fx[0], Effect::Transcribe));

    let fx = lp.handle(AppEvent::TranscribeDone("hello world".into()));
    assert_eq!(lp.state(), AppState::Refining);
    assert!(matches!(&fx[0], Effect::OverlayProcessing(l) if l == "Refining…"));
    assert_eq!(notify_body(&fx[1]).as_deref(), Some("Refining…"));
    assert!(matches!(&fx[2], Effect::Refine(t) if t == "hello world"));

    let fx = lp.handle(AppEvent::RefineDone("Hello world.".into()));
    assert_eq!(lp.state(), AppState::Injecting);
    assert_eq!(fx.len(), 1);
    match &fx[0] {
        Effect::Output { text, config } => {
            assert_eq!(text, "Hello world.");
            assert!(config.prefer_inject);
        }
        other => panic!("unexpected {other:?}"),
    }

    let fx = lp.handle(AppEvent::OutputDone);
    assert_eq!(lp.state(), AppState::Idle);
    assert!(matches!(fx[0], Effect::OverlayFadeOut));
    assert_eq!(notify_body(&fx[1]).as_deref(), Some("Done ✓"));
    assert_eq!(fx.len(), 2);
}

#[test]
fn loop_mic_failure_stays_idle() {
    let mut lp = new_loop(false, false);
    lp.handle(AppEvent::HotkeyPressed);
    let fx = lp.recording_started(Err("no device".to_string()));
    assert_eq!(lp.state(), AppState::Idle);
    match &fx[0] {
        Effect::NotifyError { title, body } => {
            assert_eq!(title, "just-talk");
            assert_eq!(body, "Mic error: no device");
        }
        other => panic!("unexpected {other:?}"),
    }
}

#[test]
fn loop_dry_run_prints_instead_of_output() {
    let mut lp = new_loop(true, false);
    lp.handle(AppEvent::HotkeyPressed);
    lp.recording_started(Ok(()));
    lp.handle(AppEvent::HotkeyPressed);
    lp.handle(AppEvent::TranscribeDone("raw".into()));
    let fx = lp.handle(AppEvent::RefineDone("text".into()));
    assert_eq!(fx.len(), 2);
    assert!(matches!(&fx[0], Effect::Print(l) if l == "[just-talk] text"));
    assert!(matches!(fx[1], Effect::Send(AppEvent::OutputDone)));
}

#[test]
fn loop_error_resets_and_notifies() {
    let mut lp = new_loop(false, false);
    lp.handle(AppEvent::HotkeyPressed);
    lp.recording_started(Ok(()));
    let fx = lp.handle(AppEvent::Error(JustTalkError::transcription("timeout")));
    assert_eq!(lp.state(), AppState::Idle);
    match &fx[0] {
        Effect::NotifyError { body, .. } => assert_eq!(body, "Transcription failed: timeout"),
        other => panic!("unexpected {other:?}"),
    }
    assert!(matches!(fx[1], Effect::OverlayFadeOut));
    assert!(matches!(fx[2], Effect::DropRecording));
    // The recording was dropped: a second stop is never asked for.
    lp.handle(AppEvent::HotkeyPressed);
    lp.recording_started(Ok(()));
    let fx = lp.handle(AppEvent::HotkeyPressed);
    assert!(matches!(fx[2], Effect::StopRecording));
}

#[test]
fn loop_stop_failure_reports_audio_error() {
    let lp = new_loop(false, false);
    let fx = lp.recording_stopped(Err("stream lost".to_string()));
    match &fx[0] {
        Effect::Send(AppEvent::Error(JustTalkError::AudioCapture(m))) => assert_eq!(m, "stream lost"),
        other => panic!("unexpected {other:?}"),
    }
}

#[test]
fn loop_reload_only_with_a_config_file() {
    let mut lp = new_loop(false, false);
    assert!(lp.handle(AppEvent::ReloadConfig).is_empty());

    let mut lp = new_loop(false, true);
    let fx = lp.handle(AppEvent::ReloadConfig);
    assert!(matches!(fx[0], Effect::LoadConfig));
    let mut cfg = Config::load_or_default(None);
    cfg.hotkey.key = "F9".to_string();
    cfg.output.prefer_inject = false;
    let fx = lp.config_loaded(Ok(cfg));
    assert!(matches!(fx[0], Effect::RebuildBackends));
    assert_eq!(fx.len(), 1);
    let fx = lp.backends_rebuilt(true);
    assert!(matches!(fx[0], Effect::InstallTranscriber));
    assert!(matches!(fx[1], Effect::InstallRefiner));
    assert_eq!(notify_body(&fx[2]).as_deref(), Some("Config reloaded"));
    let fx = lp.backends_rebuilt(false);
    assert_eq!(fx.len(), 2);
    assert!(matches!(fx[0], Effect::InstallRefiner));
    assert_eq!(notify_body(&fx[1]).as_deref(), Some("Config reloaded"));
    assert_eq!(lp.config().hotkey.key, "F9");
    assert!(lp.config_loaded(Err("bad toml".into())).is_empty());
    assert_eq!(lp.config().hotkey.key, "F9");
}

#[test]
fn loop_quit_and_ignored_events() {
    let mut lp = new_loop(false, false);
    assert!(lp.handle(AppEvent::OutputDone).is_empty());
    assert!(lp.handle(AppEvent::TranscribeDone("x".into())).is_empty());
    assert_eq!(lp.state(), AppState::Idle);
    let fx = lp.handle(AppEvent::Quit);
    assert!(matches!(fx[0], Effect::Quit));
}

#[test]
fn task_outcomes_become_events() {
    assert!(matches!(transcription_event(Ok("hi".into())), AppEvent::TranscribeDone(t) if t == "hi"));
    let e = transcription_event(Err(JustTalkError::transcription("All Whisper API attempts exhausted")));
    assert!(matches!(e, AppEvent::Error(JustTalkError::Transcription(m)) if m == "All Whisper API attempts exhausted"));
    assert!(matches!(output_event(Ok(())), AppEvent::OutputDone));
    assert!(matches!(output_event(Err("no clipboard".into())), AppEvent::Error(JustTalkError::Output(m)) if m == "no clipboard"));
}

#[test]
fn error_message_has_stage_prefix() {
    assert_eq!(JustTalkError::audio("x").message(), "Audio capture failed: x");
    assert_eq!(JustTalkError::refinement("x").message(), "AI refinement failed: x");
    assert_eq!(JustTalkError::output("x").message(), "Output failed: x");
    assert_eq!(JustTalkError::config("x").message(), "Config error: x");
    assert_eq!(JustTalkError::hotkey("x").message(), "Hotkey registration failed: x");
}
