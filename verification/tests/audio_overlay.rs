use just_talk::audio::{append_samples, recording_capacity, DEFAULT_MAX_SECS};
use just_talk::overlay::{OverlayPhase, OverlayState, SAMPLE_CAP};
use just_talk::tray::{tray_look, TraySync};

#[test]
fn append_samples_respects_max() {
    let mut buf: Vec<f32> = Vec::new();
    append_samples(&[1.0, 2.0, 3.0, 4.0, 5.0], &mut buf, 3);
    assert_eq!(buf, vec![1.0, 2.0, 3.0]);
}

#[test]
fn append_samples_no_op_when_full() {
    let mut buf = vec![1.0_f32, 2.0, 3.0];
    append_samples(&[4.0], &mut buf, 3);
    assert_eq!(buf.len(), 3);
}

#[test]
fn capacity_of_a_recording() {
    assert_eq!(recording_capacity(48_000, 2, DEFAULT_MAX_SECS), 11_520_000);
}

#[test]
fn overlay_keeps_latest_samples() {
    let mut o: OverlayState<f32> = OverlayState::new();
    let data: Vec<f32> = (0..(SAMPLE_CAP + 10)).map(|i| i as f32).collect();
    o.push_samples(&data);
    assert_eq!(o.samples.len(), SAMPLE_CAP);
    assert_eq!(o.samples[0], 10.0);
    assert_eq!(*o.samples.back().unwrap(), (SAMPLE_CAP + 9) as f32);
}

#[test]
fn overlay_phases() {
    let mut o: OverlayState<f32> = OverlayState::new();
    o.start_fade_out(5);
    assert!(matches!(o.phase, OverlayPhase::Hidden));
    o.push_samples(&[0.5]);
    o.set_recording();
    assert!(o.samples.is_empty());
    o.set_processing("Transcribing…");
    assert!(matches!(&o.phase, OverlayPhase::Processing { label } if label == "Transcribing…"));
    o.start_fade_out(100);
    o.start_fade_out(200);
    assert!(matches!(o.phase, OverlayPhase::FadingOut { started_ms: 100 }));
    o.conceal();
    assert!(matches!(o.phase, OverlayPhase::Hidden));
}

#[test]
fn tray_icon_follows_phase() {
    let look = tray_look(&OverlayPhase::Processing { label: "Refining…".into() });
    assert_eq!(look.tooltip, "just-talk — Refining…");
    assert_eq!(look.color, [200, 155, 40, 255]);
    let mut sync = TraySync::new();
    assert!(sync.sync_phase(&OverlayPhase::Hidden).is_none());
    let l = sync.sync_phase(&OverlayPhase::Recording).unwrap();
    assert_eq!(l.tooltip, "just-talk — Recording…");
    assert_eq!(l.color, [210, 50, 50, 255]);
    assert!(sync.sync_phase(&OverlayPhase::Recording).is_none());
    let l = sync.sync_phase(&OverlayPhase::Processing { label: "Transcribing…".into() }).unwrap();
    assert_eq!(l.tooltip, "just-talk — Transcribing…");
    let l = sync.sync_phase(&OverlayPhase::Processing { label: "Refining…".into() }).unwrap();
    assert_eq!(l.tooltip, "just-talk — Refining…");
    assert!(sync.sync_phase(&OverlayPhase::Processing { label: "Refining…".into() }).is_none());
    let l = sync.sync_phase(&OverlayPhase::FadingOut { started_ms: 3 }).unwrap();
    assert_eq!(l.tooltip, "just-talk — Idle");
    assert!(sync.sync_phase(&OverlayPhase::Hidden).is_none());
}
