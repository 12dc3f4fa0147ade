//! The dictation state machine.
//!
//! ```text
//! Idle  ──[HotkeyPressed]──► Recording
//! Recording  ──[HotkeyPressed]──► Transcribing
//! Transcribing  ──[TranscribeDone]──► Refining
//! Refining  ──[RefineDone]──► Injecting
//! Injecting  ──[OutputDone]──► Idle
//! * ──[Error]──► Idle
//! * ──[ReloadConfig]──► (reload the config, stay in state)
//! * ──[Quit]──► exit
//! ```
//!
//! `EventLoop` holds the decisions of the running application: for each event
//! it gives the next state and the effects that the program around it must
//! perform (open the microphone, spawn a transcription, notify the user, ...).
use std::path::PathBuf;
use vstd::prelude::*;

use crate::config::{Config, OutputConfig};
use crate::error::{ErrorView, JustTalkError};

verus! {

// ---------------------------------------------------------------------------
// States and events
// ---------------------------------------------------------------------------

#[derive(Debug, Clone, Copy, PartialEq, Eq, Structural)]
pub enum AppState {
    Idle,
    Recording,
    Transcribing,
    Refining,
    Injecting,
}

#[derive(Debug)]
pub enum AppEvent {
    HotkeyPressed,
    TranscribeDone(String),
    RefineDone(String),
    OutputDone,
    Error(JustTalkError),
    Quit,
    ReloadConfig,
}

/// The abstract value of an event.
pub enum EventView {
    HotkeyPressed,
    TranscribeDone(Seq<char>),
    RefineDone(Seq<char>),
    OutputDone,
    Error(ErrorView),
    Quit,
    ReloadConfig,
}

impl View for AppEvent {
    type V = EventView;

    open spec fn view(&self) -> EventView {
        match self {
            AppEvent::HotkeyPressed => EventView::HotkeyPressed,
            AppEvent::TranscribeDone(t) => EventView::TranscribeDone(t@),
            AppEvent::RefineDone(t) => EventView::RefineDone(t@),
            AppEvent::OutputDone => EventView::OutputDone,
            AppEvent::Error(e) => EventView::Error(e@),
            AppEvent::Quit => EventView::Quit,
            AppEvent::ReloadConfig => EventView::ReloadConfig,
        }
    }
}

/// The state-machine table: the next state for `(state, event)`, or `None`
/// where the event is ignored in that state.
pub open spec fn transition(state: AppState, event: EventView) -> Option<AppState> {
    match (state, event) {
        (AppState::Idle, EventView::HotkeyPressed) => Some(AppState::Recording),
        (AppState::Recording, EventView::HotkeyPressed) => Some(AppState::Transcribing),
        (AppState::Transcribing, EventView::TranscribeDone(_)) => Some(AppState::Refining),
        (AppState::Refining, EventView::RefineDone(_)) => Some(AppState::Injecting),
        (AppState::Injecting, EventView::OutputDone) => Some(AppState::Idle),
        (_, EventView::Error(_)) => Some(AppState::Idle),
        _ => None,
    }
}

/// Return the next `AppState` for `(state, event)`, or `None` if the event
/// is silently ignored in the current state.
pub fn apply_transition(state: &AppState, event: &AppEvent) -> (r: Option<AppState>)
    ensures
        r == transition(*state, event@),
{
    match (state, event) {
        (AppState::Idle, AppEvent::HotkeyPressed) => Some(AppState::Recording),
        (AppState::Recording, AppEvent::HotkeyPressed) => Some(AppState::Transcribing),
        (AppState::Transcribing, AppEvent::TranscribeDone(_)) => Some(AppState::Refining),
        (AppState::Refining, AppEvent::RefineDone(_)) => Some(AppState::Injecting),
        (AppState::Injecting, AppEvent::OutputDone) => Some(AppState::Idle),
        (_, AppEvent::Error(_)) => Some(AppState::Idle),
        _ => None,
    }
}

// ---------------------------------------------------------------------------
// App
// ---------------------------------------------------------------------------

/// The application as started: its configuration, the file it came from (if
/// any, for hot reload), and whether output goes to stdout only.
pub struct App {
    pub config: Config,
    pub config_path: Option<PathBuf>,
    pub dry_run: bool,
}

impl App {
    pub fn new(config: Config, config_path: Option<PathBuf>, dry_run: bool) -> (r: Self)
        ensures
            r.config == config,
            r.config_path == config_path,
            r.dry_run == dry_run,
    {
        App { config, config_path, dry_run }
    }
}

} // verus!

verus! {

// ---------------------------------------------------------------------------
// Effects
// ---------------------------------------------------------------------------

/// What the program around the event loop must do after a decision.
#[derive(Debug)]
pub enum Effect {
    /// Show a desktop notification.
    Notify { title: String, body: String },
    /// Show a desktop notification for a failure.
    NotifyError { title: String, body: String },
    /// Switch the overlay to the live waveform.
    OverlayRecording,
    /// Switch the overlay to a status label.
    OverlayProcessing(String),
    /// Let the overlay fade out.
    OverlayFadeOut,
    /// Open the microphone; report the outcome with `recording_started`.
    StartRecording,
    /// Stop the microphone and keep its PCM; report with `recording_stopped`.
    StopRecording,
    /// Discard the open recording, if any.
    DropRecording,
    /// Transcribe the PCM of the recording just stopped; its outcome comes
    /// back as a `TranscribeDone` or `Error` event.
    Transcribe,
    /// Refine this transcript; the outcome comes back as a `RefineDone` or
    /// `Error` event.
    Refine(String),
    /// Print this line on stdout.
    Print(String),
    /// Deliver this text (inject or clipboard) under this output config; the
    /// outcome comes back as an `OutputDone` or `Error` event.
    Output { text: String, config: OutputConfig },
    /// Queue this event for the loop.
    Send(AppEvent),
    /// Read the config file again; report with `config_loaded`.
    LoadConfig,
    /// Build a transcriber and a refiner from the current config; report
    /// whether the transcriber could be built with `backends_rebuilt`.
    RebuildBackends,
    /// Put the transcriber just built in place of the running one.
    InstallTranscriber,
    /// Put the refiner just built in place of the running one.
    InstallRefiner,
    /// Leave the event loop.
    Quit,
}

pub enum EffectView {
    Notify { title: Seq<char>, body: Seq<char> },
    NotifyError { title: Seq<char>, body: Seq<char> },
    OverlayRecording,
    OverlayProcessing(Seq<char>),
    OverlayFadeOut,
    StartRecording,
    StopRecording,
    DropRecording,
    Transcribe,
    Refine(Seq<char>),
    Print(Seq<char>),
    Output { text: Seq<char>, config: OutputConfig },
    Send(EventView),
    LoadConfig,
    RebuildBackends,
    InstallTranscriber,
    InstallRefiner,
    Quit,
}

impl View for Effect {
    type V = EffectView;

    open spec fn view(&self) -> EffectView {
        match self {
            Effect::Notify { title, body } => EffectView::Notify { title: title@, body: body@ },
            Effect::NotifyError { title, body } => EffectView::NotifyError {
                title: title@,
                body: body@,
            },
            Effect::OverlayRecording => EffectView::OverlayRecording,
            Effect::OverlayProcessing(l) => EffectView::OverlayProcessing(l@),
            Effect::OverlayFadeOut => EffectView::OverlayFadeOut,
            Effect::StartRecording => EffectView::StartRecording,
            Effect::StopRecording => EffectView::StopRecording,
            Effect::DropRecording => EffectView::DropRecording,
            Effect::Transcribe => EffectView::Transcribe,
            Effect::Refine(t) => EffectView::Refine(t@),
            Effect::Print(t) => EffectView::Print(t@),
            Effect::Output { text, config } => EffectView::Output { text: text@, config: *config },
            Effect::Send(e) => EffectView::Send(e@),
            Effect::LoadConfig => EffectView::LoadConfig,
            Effect::RebuildBackends => EffectView::RebuildBackends,
            Effect::InstallTranscriber => EffectView::InstallTranscriber,
            Effect::InstallRefiner => EffectView::InstallRefiner,
            Effect::Quit => EffectView::Quit,
        }
    }
}

pub open spec fn effects_view(es: Seq<Effect>) -> Seq<EffectView> {
    es.map_values(|e: Effect| e@)
}

// ---------------------------------------------------------------------------
// The event loop's decisions
// ---------------------------------------------------------------------------

/// The abstract state of the event loop.
pub struct LoopView {
    pub state: AppState,
    /// A microphone recording is open.
    pub holding_audio: bool,
    pub dry_run: bool,
    /// The config came from a file, so it can be reloaded.
    pub reloadable: bool,
    pub output: OutputConfig,
}

pub open spec fn notify(body: Seq<char>) -> EffectView {
    EffectView::Notify { title: "just-talk"@, body }
}

pub open spec fn notify_error(body: Seq<char>) -> EffectView {
    EffectView::NotifyError { title: "just-talk"@, body }
}

pub open spec fn with_state(s: LoopView, state: AppState) -> LoopView {
    LoopView { state, ..s }
}

/// What the loop does on an event: its next abstract state and its effects.
pub open spec fn step(s: LoopView, e: EventView) -> (LoopView, Seq<EffectView>) {
    match e {
        EventView::HotkeyPressed => match s.state {
            AppState::Idle => (s, seq![EffectView::StartRecording]),
            AppState::Recording => (
                LoopView { state: AppState::Transcribing, holding_audio: false, ..s },
                seq![
                    EffectView::OverlayProcessing("Transcribing…"@),
                    notify("Transcribing…"@),
                ] + if s.holding_audio {
                    seq![EffectView::StopRecording]
                } else {
                    Seq::<EffectView>::empty()
                },
            ),
            _ => (s, Seq::<EffectView>::empty()),
        },
        EventView::TranscribeDone(raw) => if s.state == AppState::Transcribing {
            (
                with_state(s, AppState::Refining),
                seq![
                    EffectView::OverlayProcessing("Refining…"@),
                    notify("Refining…"@),
                    EffectView::Refine(raw),
                ],
            )
        } else {
            (s, Seq::<EffectView>::empty())
        },
        EventView::RefineDone(text) => if s.state == AppState::Refining {
            (
                with_state(s, AppState::Injecting),
                if s.dry_run {
                    seq![
                        EffectView::Print("[just-talk] "@ + text),
                        EffectView::Send(EventView::OutputDone),
                    ]
                } else {
                    seq![EffectView::Output { text, config: s.output }]
                },
            )
        } else {
            (s, Seq::<EffectView>::empty())
        },
        EventView::OutputDone => if s.state == AppState::Injecting {
            (with_state(s, AppState::Idle), seq![EffectView::OverlayFadeOut, notify("Done ✓"@)])
        } else {
            (s, Seq::<EffectView>::empty())
        },
        EventView::Error(err) => (
            LoopView { state: AppState::Idle, holding_audio: false, ..s },
            seq![
                notify_error(crate::error::error_message(err)),
                EffectView::OverlayFadeOut,
                EffectView::DropRecording,
            ],
        ),
        EventView::ReloadConfig => (
            s,
            if s.reloadable {
                seq![EffectView::LoadConfig]
            } else {
                Seq::<EffectView>::empty()
            },
        ),
        EventView::Quit => (s, seq![EffectView::Quit]),
    }
}

/// What the loop does once the microphone was opened (`Ok`) or failed to
/// open (`Err` with the reason).
pub open spec fn started(s: LoopView, outcome: Result<(), Seq<char>>) -> (
    LoopView,
    Seq<EffectView>,
) {
    match outcome {
        Ok(_) => (
            LoopView { state: AppState::Recording, holding_audio: true, ..s },
            seq![EffectView::OverlayRecording, notify("Recording…"@)],
        ),
        Err(msg) => (s, seq![notify_error("Mic error: "@ + msg)]),
    }
}

/// What the loop does once the backends were built again from a reloaded
/// config: the new refiner always replaces the old one; the new transcriber
/// replaces the old one only if it could be built, else the old one stays.
pub open spec fn rebuilt(transcriber_ok: bool) -> Seq<EffectView> {
    if transcriber_ok {
        seq![EffectView::InstallTranscriber, EffectView::InstallRefiner, notify("Config reloaded"@)]
    } else {
        seq![EffectView::InstallRefiner, notify("Config reloaded"@)]
    }
}

/// What the loop does once the recording was stopped: transcribe its PCM, or
/// report the failure as an audio error.
pub open spec fn stopped(outcome: Result<(), Seq<char>>) -> Seq<EffectView> {
    match outcome {
        Ok(_) => seq![EffectView::Transcribe],
        Err(msg) => seq![EffectView::Send(EventView::Error(ErrorView::AudioCapture(msg)))],
    }
}

pub open spec fn outcome_view(r: Result<(), String>) -> Result<(), Seq<char>> {
    match r {
        Ok(_) => Ok(()),
        Err(m) => Err(m@),
    }
}

/// The running event loop: the current state and the open recording, the
/// configuration in force and where it came from.
pub struct EventLoop {
    state: AppState,
    holding_audio: bool,
    config: Config,
    config_path: Option<PathBuf>,
    dry_run: bool,
}

impl View for EventLoop {
    type V = LoopView;

    closed spec fn view(&self) -> LoopView {
        LoopView {
            state: self.state,
            holding_audio: self.holding_audio,
            dry_run: self.dry_run,
            reloadable: self.config_path is Some,
            output: self.config.output,
        }
    }
}

impl EventLoop {
    /// The configuration in force.
    pub closed spec fn current_config(&self) -> Config {
        self.config
    }

    /// The file the configuration came from.
    pub closed spec fn current_path(&self) -> Option<PathBuf> {
        self.config_path
    }

    /// Start the loop for an app: idle, with no recording open.
    pub fn new(app: App) -> (r: Self)
        ensures
            r@ == (LoopView {
                state: AppState::Idle,
                holding_audio: false,
                dry_run: app.dry_run,
                reloadable: app.config_path is Some,
                output: app.config.output,
            }),
            r.current_config() == app.config,
            r.current_path() == app.config_path,
    {
        EventLoop {
            state: AppState::Idle,
            holding_audio: false,
            config: app.config,
            config_path: app.config_path,
            dry_run: app.dry_run,
        }
    }

    pub fn state(&self) -> (r: AppState)
        ensures
            r == self@.state,
    {
        self.state
    }

    pub fn config(&self) -> (r: &Config)
        ensures
            *r == self.current_config(),
    {
        &self.config
    }

    pub fn config_path(&self) -> (r: &Option<PathBuf>)
        ensures
            *r == self.current_path(),
    {
        &self.config_path
    }

    /// The notification shown once the loop is ready.
    pub fn greeting(&self) -> (r: Effect)
        ensures
            r@ == notify("Ready — press "@ + self.current_config().hotkey.key@ + " to record"@),
    {
        let body = "Ready — press ".to_string().concat(self.config.hotkey.key.as_str()).concat(
            " to record",
        );
        Effect::Notify { title: "just-talk".to_string(), body }
    }

    /// Decide what to do on `event`.
    pub fn handle(&mut self, event: AppEvent) -> (effects: Vec<Effect>)
        ensures
            (final(self)@, effects_view(effects@)) == step(old(self)@, event@),
            final(self).current_config() == old(self).current_config(),
            final(self).current_path() == old(self).current_path(),
    {
        let ghost ev = event@;
        let mut effects: Vec<Effect> = Vec::new();
        match event {
            AppEvent::HotkeyPressed => {
                match self.state {
                    AppState::Idle => {
                        effects.push(Effect::StartRecording);
                    },
                    AppState::Recording => {
                        self.state = AppState::Transcribing;
                        effects.push(Effect::OverlayProcessing("Transcribing…".to_string()));
                        effects.push(
                            Effect::Notify {
                                title: "just-talk".to_string(),
                                body: "Transcribing…".to_string(),
                            },
                        );
                        if self.holding_audio {
                            self.holding_audio = false;
                            effects.push(Effect::StopRecording);
                        }
                    },
                    _ => {},
                }
            },
            AppEvent::TranscribeDone(raw) => {
                if self.state == AppState::Transcribing {
                    self.state = AppState::Refining;
                    effects.push(Effect::OverlayProcessing("Refining…".to_string()));
                    effects.push(
                        Effect::Notify { title: "just-talk".to_string(), body: "Refining…".to_string() },
                    );
                    effects.push(Effect::Refine(raw));
                }
            },
            AppEvent::RefineDone(text) => {
                if self.state == AppState::Refining {
                    self.state = AppState::Injecting;
                    if self.dry_run {
                        effects.push(Effect::Print("[just-talk] ".to_string().concat(text.as_str())));
                        effects.push(Effect::Send(AppEvent::OutputDone));
                    } else {
                        effects.push(Effect::Output { text, config: self.config.output });
                    }
                }
            },
            AppEvent::OutputDone => {
                if self.state == AppState::Injecting {
                    self.state = AppState::Idle;
                    effects.push(Effect::OverlayFadeOut);
                    effects.push(
                        Effect::Notify { title: "just-talk".to_string(), body: "Done ✓".to_string() },
                    );
                }
            },
            AppEvent::Error(e) => {
                self.state = AppState::Idle;
                self.holding_audio = false;
                effects.push(
                    Effect::NotifyError { title: "just-talk".to_string(), body: e.message() },
                );
                effects.push(Effect::OverlayFadeOut);
                effects.push(Effect::DropRecording);
            },
            AppEvent::ReloadConfig => {
                if self.config_path.is_some() {
                    effects.push(Effect::LoadConfig);
                }
            },
            AppEvent::Quit => {
                effects.push(Effect::Quit);
            },
        }
        proof {
            assert(effects_view(effects@) =~= step(old(self)@, ev).1);
        }
        effects
    }

    /// Decide what to do once the microphone was opened, or failed to open.
    pub fn recording_started(&mut self, outcome: Result<(), String>) -> (effects: Vec<Effect>)
        ensures
            (final(self)@, effects_view(effects@)) == started(old(self)@, outcome_view(outcome)),
            final(self).current_config() == old(self).current_config(),
            final(self).current_path() == old(self).current_path(),
    {
        let mut effects: Vec<Effect> = Vec::new();
        match outcome {
            Ok(()) => {
                self.state = AppState::Recording;
                self.holding_audio = true;
                effects.push(Effect::OverlayRecording);
                effects.push(
                    Effect::Notify {
                        title: "just-talk".to_string(),
                        body: "Recording…".to_string(),
                    },
                );
            },
            Err(msg) => {
                effects.push(
                    Effect::NotifyError {
                        title: "just-talk".to_string(),
                        body: "Mic error: ".to_string().concat(msg.as_str()),
                    },
                );
            },
        }
        proof {
            assert(effects_view(effects@) =~= started(old(self)@, outcome_view(outcome)).1);
        }
        effects
    }

    /// Decide what to do once the recording was stopped, or failed to stop.
    pub fn recording_stopped(&self, outcome: Result<(), String>) -> (effects: Vec<Effect>)
        ensures
            effects_view(effects@) == stopped(outcome_view(outcome)),
    {
        let mut effects: Vec<Effect> = Vec::new();
        match outcome {
            Ok(()) => effects.push(Effect::Transcribe),
            Err(msg) => effects.push(Effect::Send(AppEvent::Error(JustTalkError::AudioCapture(msg)))),
        }
        proof {
            assert(effects_view(effects@) =~= stopped(outcome_view(outcome)));
        }
        effects
    }

    /// Decide what to do once the config file was read again: adopt the new
    /// configuration and rebuild the backends, or keep the old one (and the
    /// running backends) when the file could not be read.
    pub fn config_loaded(&mut self, loaded: Result<Config, String>) -> (effects: Vec<Effect>)
        ensures
            loaded matches Ok(c) ==> {
                &&& final(self).current_config() == c
                &&& final(self)@ == LoopView { output: c.output, ..old(self)@ }
                &&& effects_view(effects@) == seq![EffectView::RebuildBackends]
            },
            loaded is Err ==> {
                &&& final(self).current_config() == old(self).current_config()
                &&& final(self)@ == old(self)@
                &&& effects@.len() == 0
            },
            final(self).current_path() == old(self).current_path(),
    {
        let mut effects: Vec<Effect> = Vec::new();
        match loaded {
            Ok(c) => {
                self.config = c;
                effects.push(Effect::RebuildBackends);
                proof {
                    assert(effects_view(effects@) =~= seq![EffectView::RebuildBackends]);
                }
            },
            Err(_) => {},
        }
        effects
    }

    /// Decide what to do once the backends were built from the reloaded
    /// config, given whether the transcriber could be built.
    pub fn backends_rebuilt(&self, transcriber_ok: bool) -> (effects: Vec<Effect>)
        ensures
            effects_view(effects@) == rebuilt(transcriber_ok),
    {
        let mut effects: Vec<Effect> = Vec::new();
        if transcriber_ok {
            effects.push(Effect::InstallTranscriber);
        }
        effects.push(Effect::InstallRefiner);
        effects.push(
            Effect::Notify { title: "just-talk".to_string(), body: "Config reloaded".to_string() },
        );
        proof {
            assert(effects_view(effects@) =~= rebuilt(transcriber_ok));
        }
        effects
    }
}

} // verus!

verus! {

// ---------------------------------------------------------------------------
// Laws
// ---------------------------------------------------------------------------

pub open spec fn next_or_same(state: AppState, e: EventView) -> AppState {
    match transition(state, e) {
        Some(n) => n,
        None => state,
    }
}

/// The running loop follows the state-machine table: on every event but a
/// hotkey press while idle, its state becomes the table's next state (or
/// stays, where the table ignores the event).
pub proof fn lemma_loop_follows_table(s: LoopView, e: EventView)
    requires
        !(s.state == AppState::Idle && e is HotkeyPressed),
    ensures
        step(s, e).0.state == next_or_same(s.state, e),
{
}

/// A hotkey press while idle first opens the microphone; once it is open the
/// loop is where the table says, recording.
pub proof fn lemma_recording_starts_as_table(s: LoopView)
    requires
        s.state == AppState::Idle,
    ensures
        step(s, EventView::HotkeyPressed) == (s, seq![EffectView::StartRecording]),
        started(step(s, EventView::HotkeyPressed).0, Ok(())).0.state == next_or_same(
            AppState::Idle,
            EventView::HotkeyPressed,
        ),
        started(s, Err(Seq::<char>::empty())).0 == s,
{
}

/// Events that the table ignores leave the loop's state untouched.
pub proof fn lemma_ignored_events_change_nothing(s: LoopView, e: EventView)
    requires
        transition(s.state, e) is None,
    ensures
        step(s, e).0 == s,
{
}

/// An error from any state returns the loop to idle, releases the
/// microphone, tells the user, and fades the overlay out.
pub proof fn lemma_error_recovers(s: LoopView, err: ErrorView)
    ensures
        step(s, EventView::Error(err)).0.state == AppState::Idle,
        !step(s, EventView::Error(err)).0.holding_audio,
        step(s, EventView::Error(err)).1.contains(EffectView::DropRecording),
        step(s, EventView::Error(err)).1.contains(
            notify_error(crate::error::error_message(err)),
        ),
{
    assert(step(s, EventView::Error(err)).1[2] == EffectView::DropRecording);
    assert(step(s, EventView::Error(err)).1[0] == notify_error(crate::error::error_message(err)));
}

/// In a dry run no text is ever injected or written to the clipboard: the
/// refined text is printed, and the loop moves on as if it had been
/// delivered.
pub proof fn lemma_dry_run_only_prints(s: LoopView, e: EventView)
    requires
        s.dry_run,
    ensures
        forall|i: int|
            0 <= i < step(s, e).1.len() ==> !(#[trigger] step(s, e).1[i] is Output),
        s.state == AppState::Refining ==> (e matches EventView::RefineDone(text) ==> step(s, e).1
            == seq![
            EffectView::Print("[just-talk] "@ + text),
            EffectView::Send(EventView::OutputDone),
        ]),
{
}

/// Outside a dry run, a refined transcript is handed on for delivery exactly
/// once, unchanged, with the output config in force.
pub proof fn lemma_refined_text_delivered(s: LoopView, text: Seq<char>)
    requires
        !s.dry_run,
        s.state == AppState::Refining,
    ensures
        step(s, EventView::RefineDone(text)).1 == seq![
            EffectView::Output { text, config: s.output },
        ],
{
}

/// A recording is stopped only when one is open, and at most once: after
/// the stop the loop holds none.
pub proof fn lemma_stop_only_when_holding(s: LoopView, e: EventView)
    ensures
        step(s, e).1.contains(EffectView::StopRecording) ==> s.holding_audio && !step(
            s,
            e,
        ).0.holding_audio,
{
    if step(s, e).1.contains(EffectView::StopRecording) {
        let i = choose|i: int| 0 <= i < step(s, e).1.len() && step(s, e).1[i] == EffectView::StopRecording;
        assert(step(s, e).1[i] == EffectView::StopRecording);
    }
}

/// A loop can reload its configuration exactly when the configuration came
/// from a file.
pub proof fn lemma_reloadable_iff_path(lp: &EventLoop)
    ensures
        lp@.reloadable <==> lp.current_path() is Some,
{
}

/// An event that the state table ignores (other than a reload request or
/// quit, which act in every state) does nothing at all: no state change and
/// no effect. In particular a hotkey press while transcribing, refining or
/// delivering is ignored.
pub proof fn lemma_ignored_events_do_nothing(s: LoopView, e: EventView)
    requires
        transition(s.state, e) is None,
        !(e is ReloadConfig),
        !(e is Quit),
    ensures
        step(s, e).0 == s,
        step(s, e).1.len() == 0,
{
}

/// The microphone is opened only on a hotkey press while idle, and every
/// such press asks to open it.
pub proof fn lemma_start_only_when_idle(s: LoopView, e: EventView)
    ensures
        step(s, e).1.contains(EffectView::StartRecording) <==> (s.state == AppState::Idle
            && e is HotkeyPressed),
{
    if s.state == AppState::Idle && e is HotkeyPressed {
        assert(step(s, e).1[0] == EffectView::StartRecording);
    }
    if step(s, e).1.contains(EffectView::StartRecording) {
        let i = choose|i: int| 0 <= i < step(s, e).1.len() && step(s, e).1[i] == EffectView::StartRecording;
        assert(step(s, e).1[i] == EffectView::StartRecording);
    }
}

/// Each stage of the pipeline tells the user: "Recording…" once the
/// microphone is open, "Transcribing…" when the recording stops,
/// "Refining…" when the transcript arrives (which is handed on unchanged),
/// and "Done ✓" once the text is delivered.
pub proof fn lemma_pipeline_notifies(s: LoopView, raw: Seq<char>)
    ensures
        started(s, Ok(())).1.contains(notify("Recording…"@)),
        s.state == AppState::Recording ==> step(s, EventView::HotkeyPressed).1.contains(
            notify("Transcribing…"@),
        ),
        s.state == AppState::Transcribing ==> step(s, EventView::TranscribeDone(raw)).1.contains(
            notify("Refining…"@),
        ) && step(s, EventView::TranscribeDone(raw)).1.contains(EffectView::Refine(raw)),
        s.state == AppState::Injecting ==> step(s, EventView::OutputDone).1.contains(
            notify("Done ✓"@),
        ),
{
    assert(started(s, Ok(())).1[1] == notify("Recording…"@));
    if s.state == AppState::Recording {
        assert(step(s, EventView::HotkeyPressed).1[1] == notify("Transcribing…"@));
    }
    if s.state == AppState::Transcribing {
        assert(step(s, EventView::TranscribeDone(raw)).1[1] == notify("Refining…"@));
        assert(step(s, EventView::TranscribeDone(raw)).1[2] == EffectView::Refine(raw));
    }
    if s.state == AppState::Injecting {
        assert(step(s, EventView::OutputDone).1[1] == notify("Done ✓"@));
    }
}

/// Quit always leaves the loop.
pub proof fn lemma_quit_leaves(s: LoopView)
    ensures
        step(s, EventView::Quit) == (s, seq![EffectView::Quit]),
{
}

} // verus!

verus! {

// ---------------------------------------------------------------------------
// Outcomes of the background tasks
// ---------------------------------------------------------------------------

/// The event that a finished transcription sends to the loop: the text, or
/// the failure as a transcription error carrying the failure's detail.
pub fn transcription_event(outcome: Result<String, JustTalkError>) -> (e: AppEvent)
    ensures
        match outcome {
            Ok(t) => e@ == EventView::TranscribeDone(t@),
            Err(err) => e@ == EventView::Error(
                ErrorView::Transcription(crate::error::error_detail(err@)),
            ),
        },
{
    match outcome {
        Ok(text) => AppEvent::TranscribeDone(text),
        Err(err) => AppEvent::Error(JustTalkError::Transcription(err.into_detail())),
    }
}

/// The event that a finished delivery sends to the loop.
pub fn output_event(outcome: Result<(), String>) -> (e: AppEvent)
    ensures
        match outcome {
            Ok(_) => e@ == EventView::OutputDone,
            Err(m) => e@ == EventView::Error(ErrorView::Output(m@)),
        },
{
    match outcome {
        Ok(()) => AppEvent::OutputDone,
        Err(m) => AppEvent::Error(JustTalkError::Output(m)),
    }
}

} // verus!
