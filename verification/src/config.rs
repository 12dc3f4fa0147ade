use std::path::PathBuf;
use vstd::prelude::*;

verus! {

/// The path type of std, carried through the configuration unchanged.
#[verifier::external_type_specification]
#[verifier::external_body]
pub struct ExPathBuf(PathBuf);

// ---------------------------------------------------------------------------
// Backend and trigger choices
// ---------------------------------------------------------------------------

/// Which speech-to-text engine transcribes a recording.
#[derive(Debug, Clone, Copy, PartialEq, Eq, Structural)]
pub enum TranscribeBackend {
    Local,
    OpenAi,
}

impl Default for TranscribeBackend {
    fn default() -> (r: Self)
        ensures
            r == TranscribeBackend::Local,
    {
        TranscribeBackend::Local
    }
}

/// Which language model polishes a transcript (or none at all).
#[derive(Debug, Clone, Copy, PartialEq, Eq, Structural)]
pub enum RefineBackend {
    Claude,
    OpenAi,
    Ollama,
    Passthrough,
}

impl Default for RefineBackend {
    fn default() -> (r: Self)
        ensures
            r == RefineBackend::Passthrough,
    {
        RefineBackend::Passthrough
    }
}

/// How the hotkey fires: on every press, or on the second of two quick taps.
#[derive(Debug, Clone, Copy, PartialEq, Eq, Structural)]
pub enum HotkeyTrigger {
    Single,
    DoubleTap,
}

impl Default for HotkeyTrigger {
    fn default() -> (r: Self)
        ensures
            r == HotkeyTrigger::DoubleTap,
    {
        HotkeyTrigger::DoubleTap
    }
}

// ---------------------------------------------------------------------------
// Config sections
// ---------------------------------------------------------------------------

#[derive(Debug)]
pub struct HotkeyConfig {
    pub key: String,
    pub modifiers: Vec<String>,
    pub trigger: HotkeyTrigger,
    pub double_tap_ms: u64,
}

#[derive(Debug)]
pub struct TranscribeConfig {
    pub backend: TranscribeBackend,
    pub model_path: Option<PathBuf>,
    pub language: Option<String>,
    pub prompt: Option<String>,
    pub openai_api_key: Option<String>,
    pub openai_model: String,
    /// Override of the API base URL (an OpenAI-compatible endpoint such as Groq's).
    pub base_url: Option<String>,
}

#[derive(Debug)]
pub struct RefineConfig {
    pub backend: RefineBackend,
    pub model: String,
    pub system_prompt: String,
    pub api_key: Option<String>,
    pub base_url: Option<String>,
}

#[derive(Debug, Clone, Copy, PartialEq, Eq, Structural)]
pub struct OutputConfig {
    pub prefer_inject: bool,
    pub inject_delay_ms: u64,
    pub clipboard_fallback: bool,
}

#[derive(Debug)]
pub struct Config {
    pub hotkey: HotkeyConfig,
    pub transcribe: TranscribeConfig,
    pub refine: RefineConfig,
    pub output: OutputConfig,
}

/// The instruction given to the refinement model unless the config says otherwise.
pub const DEFAULT_SYSTEM_PROMPT: &'static str = "你是一個語音輸入修飾助手。請將以下語音辨識結果修正錯別字、標點，使其通順自然。只輸出修正後的文字，不要加任何解釋。";

/// The refinement model unless the config names one. It is left empty: a
/// config that selects a model backend names the model to use.
pub const DEFAULT_REFINE_MODEL: &'static str = "";

/// The double-tap window, in milliseconds, unless the config says otherwise.
pub const DEFAULT_DOUBLE_TAP_MS: u64 = 400;

// ---------------------------------------------------------------------------
// Defaults
// ---------------------------------------------------------------------------

pub open spec fn is_default_hotkey(h: HotkeyConfig) -> bool {
    &&& h.key@ == "F4"@
    &&& h.modifiers@.len() == 0
    &&& h.trigger == HotkeyTrigger::DoubleTap
    &&& h.double_tap_ms == DEFAULT_DOUBLE_TAP_MS
}

/// The defaults of the transcription section. The model path is the model
/// file under the platform's local data directory (which directory depends
/// on the machine), or none where the platform has no such directory.
pub open spec fn is_default_transcribe(t: TranscribeConfig) -> bool {
    &&& t.backend == TranscribeBackend::Local
    &&& t.language matches Some(l) && l@ == "auto"@
    &&& t.prompt is None
    &&& t.openai_api_key is None
    &&& t.openai_model@ == "whisper-1"@
    &&& t.base_url is None
    &&& is_default_model_path(t.model_path)
}

/// The default model path: none, or the model file under some directory
/// (the platform's local data directory, which depends on the machine).
pub open spec fn is_default_model_path(p: Option<PathBuf>) -> bool {
    p is None || exists|d: PathBuf| p == Some(#[trigger] model_file_under(d))
}

pub open spec fn is_default_refine(r: RefineConfig) -> bool {
    &&& r.backend == RefineBackend::Passthrough
    &&& r.model@ == DEFAULT_REFINE_MODEL@
    &&& r.system_prompt@ == DEFAULT_SYSTEM_PROMPT@
    &&& r.api_key is None
    &&& r.base_url is None
}

pub open spec fn is_default_output(o: OutputConfig) -> bool {
    o == OutputConfig { prefer_inject: true, inject_delay_ms: 20, clipboard_fallback: true }
}

pub open spec fn is_default_config(c: Config) -> bool {
    &&& is_default_hotkey(c.hotkey)
    &&& is_default_transcribe(c.transcribe)
    &&& is_default_refine(c.refine)
    &&& is_default_output(c.output)
}

impl Default for HotkeyConfig {
    fn default() -> (r: Self)
        ensures
            is_default_hotkey(r),
    {
        HotkeyConfig {
            key: "F4".to_string(),
            modifiers: Vec::new(),
            trigger: HotkeyTrigger::DoubleTap,
            double_tap_ms: DEFAULT_DOUBLE_TAP_MS,
        }
    }
}

/// The platform's local data directory, `dirs::data_local_dir`. What it
/// returns depends on the machine and its environment, so nothing is stated
/// of it.
#[verifier::external_body]
fn data_local_dir() -> Option<PathBuf> {
    dirs::data_local_dir()
}

/// The path that `Path::join` of std gives for `base` with the component
/// `part` adjoined.
pub uninterp spec fn joined_path(base: PathBuf, part: Seq<char>) -> PathBuf;

/// `Path::join` of std: the path with one more component adjoined. Its
/// result is named, not described: it depends on the two arguments alone.
#[verifier::external_body]
fn join_path(base: PathBuf, part: &str) -> (r: PathBuf)
    ensures
        r == joined_path(base, part@),
{
    base.join(part)
}

/// `<dir>/just-talk/models/ggml-base.bin`.
pub open spec fn model_file_under(dir: PathBuf) -> PathBuf {
    joined_path(joined_path(joined_path(dir, "just-talk"@), "models"@), "ggml-base.bin"@)
}

/// Where a downloaded ggml model is expected under a data directory:
/// `<dir>/just-talk/models/ggml-base.bin`; no path without a directory.
pub fn model_path_under(dir: Option<PathBuf>) -> (r: Option<PathBuf>)
    ensures
        match dir {
            Some(d) => r == Some(model_file_under(d)),
            None => r is None,
        },
{
    match dir {
        Some(d) => Some(join_path(join_path(join_path(d, "just-talk"), "models"), "ggml-base.bin")),
        None => None,
    }
}

/// Where a downloaded ggml model is expected by default: under the local
/// data directory, when the platform has one.
fn default_model_path() -> (r: Option<PathBuf>)
    ensures
        is_default_model_path(r),
{
    model_path_under(data_local_dir())
}

impl Default for TranscribeConfig {
    fn default() -> (r: Self)
        ensures
            is_default_transcribe(r),
    {
        TranscribeConfig {
            backend: TranscribeBackend::Local,
            model_path: default_model_path(),
            language: Some("auto".to_string()),
            prompt: None,
            openai_api_key: None,
            openai_model: "whisper-1".to_string(),
            base_url: None,
        }
    }
}

impl Default for RefineConfig {
    fn default() -> (r: Self)
        ensures
            is_default_refine(r),
    {
        RefineConfig {
            backend: RefineBackend::Passthrough,
            model: DEFAULT_REFINE_MODEL.to_string(),
            system_prompt: DEFAULT_SYSTEM_PROMPT.to_string(),
            api_key: None,
            base_url: None,
        }
    }
}

impl Default for OutputConfig {
    fn default() -> (r: Self)
        ensures
            is_default_output(r),
    {
        OutputConfig { prefer_inject: true, inject_delay_ms: 20, clipboard_fallback: true }
    }
}

impl Default for Config {
    fn default() -> (r: Self)
        ensures
            is_default_config(r),
    {
        Config {
            hotkey: HotkeyConfig::default(),
            transcribe: TranscribeConfig::default(),
            refine: RefineConfig::default(),
            output: OutputConfig::default(),
        }
    }
}

impl RefineConfig {
    /// A copy of this section.
    pub fn duplicate(&self) -> (r: Self)
        ensures
            r == *self,
    {
        RefineConfig {
            backend: self.backend,
            model: self.model.clone(),
            system_prompt: self.system_prompt.clone(),
            api_key: crate::text::clone_opt(&self.api_key),
            base_url: crate::text::clone_opt(&self.base_url),
        }
    }
}

// ---------------------------------------------------------------------------
// Loading and lookup
// ---------------------------------------------------------------------------

impl Config {
    /// Choose the configuration to run with, given the outcome of reading the
    /// config file: `None` when no file was found, `Some(Err(_))` when it could
    /// not be read or parsed. Either failure falls back to the built-in defaults.
    pub fn load_or_default(loaded: Option<Result<Config, String>>) -> (r: Config)
        ensures
            loaded matches Some(Ok(c)) ==> r == c,
            !(loaded matches Some(Ok(_))) ==> is_default_config(r),
    {
        match loaded {
            Some(Ok(c)) => c,
            _ => Config::default(),
        }
    }

    /// Resolve the config file path by priority: the command-line path, then
    /// the `JUST_TALK_CONFIG` environment variable, then `config.toml` in the
    /// user's config directory if it exists, then `config.toml` in the working
    /// directory if it exists.
    pub fn find_path(
        cli_path: Option<PathBuf>,
        env_path: Option<PathBuf>,
        user_candidate: Option<PathBuf>,
        user_exists: bool,
        local_candidate: PathBuf,
        local_exists: bool,
    ) -> (r: Option<PathBuf>)
        ensures
            cli_path is Some ==> r == cli_path,
            cli_path is None && env_path is Some ==> r == env_path,
            cli_path is None && env_path is None && user_candidate is Some && user_exists
                ==> r == user_candidate,
            cli_path is None && env_path is None && !(user_candidate is Some && user_exists)
                ==> r == (if local_exists { Some(local_candidate) } else { None::<PathBuf> }),
    {
        if cli_path.is_some() {
            return cli_path;
        }
        if env_path.is_some() {
            return env_path;
        }
        if user_candidate.is_some() && user_exists {
            return user_candidate;
        }
        if local_exists {
            Some(local_candidate)
        } else {
            None
        }
    }
}

} // verus!
