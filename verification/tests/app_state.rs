use just_talk::app::{apply_transition, AppEvent, AppState};
use just_talk::error::JustTalkError;

fn hotkey() -> AppEvent {
    AppEvent::HotkeyPressed
}
fn tdone(s: &str) -> AppEvent {
    AppEvent::TranscribeDone(s.into())
}
fn rdone(s: &str) -> AppEvent {
    AppEvent::RefineDone(s.into())
}
fn err() -> AppEvent {
    AppEvent::Error(JustTalkError::audio("test"))
}

#[test]
fn happy_path_full_cycle() {
    let seq = [
        (AppState::Idle, hotkey(), AppState::Recording),
        (AppState::Recording, hotkey(), AppState::Transcribing),
        (AppState::Transcribing, tdone("hello"), AppState::Refining),
        (AppState::Refining, rdone("Hello."), AppState::Injecting),
        (AppState::Injecting, AppEvent::OutputDone, AppState::Idle),
    ];
    for (from, event, expected) in seq {
        let got = apply_transition(&from, &event);
        assert_eq!(got, Some(expected.clone()), "from={from:?}");
    }
}

#[test]
fn error_returns_to_idle_from_any_state() {
    let states = [
        AppState::Idle,
        AppState::Recording,
        AppState::Transcribing,
        AppState::Refining,
        AppState::Injecting,
    ];
    for s in states {
        assert_eq!(
            apply_transition(&s, &err()),
            Some(AppState::Idle),
            "from={s:?}"
        );
    }
}

#[test]
fn quit_and_reload_return_none() {
    for s in [AppState::Idle, AppState::Recording] {
        assert_eq!(apply_transition(&s, &AppEvent::Quit), None);
        assert_eq!(apply_transition(&s, &AppEvent::ReloadConfig), None);
    }
}

#[test]
fn wrong_event_in_state_is_ignored() {
    // HotkeyPressed is only meaningful in Idle and Recording.
    assert_eq!(apply_transition(&AppState::Transcribing, &hotkey()), None);
    assert_eq!(apply_transition(&AppState::Injecting, &hotkey()), None);
    // OutputDone only matters in Injecting.
    assert_eq!(
        apply_transition(&AppState::Idle, &AppEvent::OutputDone),
        None
    );
    assert_eq!(
        apply_transition(&AppState::Refining, &AppEvent::OutputDone),
        None
    );
}

#[test]
fn transcribe_done_only_in_transcribing() {
    assert_eq!(apply_transition(&AppState::Idle, &tdone("x")), None);
    assert_eq!(apply_transition(&AppState::Refining, &tdone("x")), None);
}

#[test]
fn refine_done_only_in_refining() {
    assert_eq!(apply_transition(&AppState::Idle, &rdone("x")), None);
    assert_eq!(apply_transition(&AppState::Injecting, &rdone("x")), None);
}
