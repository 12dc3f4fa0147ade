//! Remote Whisper transcription via an OpenAI-compatible
//! `/v1/audio/transcriptions` API.
//!
//! Flow: PCM → WAV → multipart POST → JSON `text` field. An attempt that
//! failed on the network or with a server error (5xx) is retried up to two
//! more times, after 500 ms and then 1000 ms; any other failure ends the
//! transcription at once.
use vstd::prelude::*;

use crate::config::TranscribeConfig;
use crate::error::{ErrorView, JustTalkError};
use crate::json::{field, text_of, Json, JsonView};
use crate::refine::status_is_success;
use crate::text::{clone_opt, endpoint, endpoint_url, opt_view, str_eq};

verus! {

pub const OPENAI_BASE_URL: &'static str = "https://api.openai.com";

/// How many times a failed attempt is retried.
pub const MAX_RETRIES: u32 = 2;

/// What a remote transcriber needs of its config.
pub struct RemoteSettings {
    pub api_key: Option<Seq<char>>,
    pub model: Seq<char>,
    pub language: Option<Seq<char>>,
    pub prompt: Option<Seq<char>>,
    pub base_url: Option<Seq<char>>,
}

pub open spec fn settings_of(c: TranscribeConfig) -> RemoteSettings {
    RemoteSettings {
        api_key: opt_view(c.openai_api_key),
        model: c.openai_model@,
        language: opt_view(c.language),
        prompt: opt_view(c.prompt),
        base_url: opt_view(c.base_url),
    }
}

#[derive(Debug)]
pub struct RemoteTranscriber {
    api_key: Option<String>,
    model: String,
    language: Option<String>,
    prompt: Option<String>,
    base_url: Option<String>,
}

impl View for RemoteTranscriber {
    type V = RemoteSettings;

    closed spec fn view(&self) -> RemoteSettings {
        RemoteSettings {
            api_key: opt_view(self.api_key),
            model: self.model@,
            language: opt_view(self.language),
            prompt: opt_view(self.prompt),
            base_url: opt_view(self.base_url),
        }
    }
}

/// A part of the multipart form, in order.
#[derive(Debug)]
pub enum FormPart {
    /// A text field.
    Text { name: String, value: String },
    /// The recording, as a WAV file.
    Audio { name: String, file_name: String, mime: String },
}

pub enum FormPartView {
    Text { name: Seq<char>, value: Seq<char> },
    Audio { name: Seq<char>, file_name: Seq<char>, mime: Seq<char> },
}

impl View for FormPart {
    type V = FormPartView;

    open spec fn view(&self) -> FormPartView {
        match self {
            FormPart::Text { name, value } => FormPartView::Text { name: name@, value: value@ },
            FormPart::Audio { name, file_name, mime } => FormPartView::Audio {
                name: name@,
                file_name: file_name@,
                mime: mime@,
            },
        }
    }
}

pub open spec fn parts_view(p: Seq<FormPart>) -> Seq<FormPartView> {
    p.map_values(|x: FormPart| x@)
}

/// A transcription request: where it goes, its bearer token, and its form.
#[derive(Debug)]
pub struct TranscriptionRequest {
    pub url: String,
    pub bearer: String,
    pub parts: Vec<FormPart>,
}

/// The form of a request: the model, the recording, the language unless it
/// is `auto` (which leaves detection to the server), and the prompt if any.
pub open spec fn form_of(s: RemoteSettings) -> Seq<FormPartView> {
    seq![
        FormPartView::Text { name: "model"@, value: s.model },
        FormPartView::Audio { name: "file"@, file_name: "audio.wav"@, mime: "audio/wav"@ },
    ] + match s.language {
        Some(l) => if l != "auto"@ {
            seq![FormPartView::Text { name: "language"@, value: l }]
        } else {
            Seq::<FormPartView>::empty()
        },
        None => Seq::<FormPartView>::empty(),
    } + match s.prompt {
        Some(p) => seq![FormPartView::Text { name: "prompt"@, value: p }],
        None => Seq::<FormPartView>::empty(),
    }
}

impl RemoteTranscriber {
    pub fn new(config: &TranscribeConfig) -> (r: Self)
        ensures
            r@ == settings_of(*config),
    {
        RemoteTranscriber {
            api_key: clone_opt(&config.openai_api_key),
            model: config.openai_model.clone(),
            language: clone_opt(&config.language),
            prompt: clone_opt(&config.prompt),
            base_url: clone_opt(&config.base_url),
        }
    }

    /// The request for a transcription, or the error for a config without
    /// an API key.
    pub fn request(&self) -> (r: Result<TranscriptionRequest, JustTalkError>)
        ensures
            match self@.api_key {
                None => r matches Err(e) && e@ == ErrorView::Transcription(
                    "transcribe.openai_api_key not configured"@,
                ),
                Some(key) => r matches Ok(req) && req.url@ == endpoint(
                    self@.base_url,
                    OPENAI_BASE_URL@,
                    "/v1/audio/transcriptions"@,
                ) && req.bearer@ == key && parts_view(req.parts@) == form_of(self@),
            },
    {
        let api_key = match &self.api_key {
            Some(k) => k.clone(),
            None => {
                return Err(JustTalkError::Transcription(
                    "transcribe.openai_api_key not configured".to_string(),
                ));
            },
        };
        let mut parts: Vec<FormPart> = Vec::new();
        parts.push(FormPart::Text { name: "model".to_string(), value: self.model.clone() });
        parts.push(
            FormPart::Audio {
                name: "file".to_string(),
                file_name: "audio.wav".to_string(),
                mime: "audio/wav".to_string(),
            },
        );
        let ghost base = parts_view(parts@);
        let ghost lang_part = match self@.language {
            Some(l) => if l != "auto"@ {
                seq![FormPartView::Text { name: "language"@, value: l }]
            } else {
                Seq::<FormPartView>::empty()
            },
            None => Seq::<FormPartView>::empty(),
        };
        if let Some(lang) = &self.language {
            if !str_eq(lang.as_str(), "auto") {
                parts.push(FormPart::Text { name: "language".to_string(), value: lang.clone() });
            }
        }
        proof {
            assert(parts_view(parts@) =~= base + lang_part);
        }
        let ghost mid = parts_view(parts@);
        if let Some(p) = &self.prompt {
            parts.push(FormPart::Text { name: "prompt".to_string(), value: p.clone() });
        }
        proof {
            assert(parts_view(parts@) =~= mid + match self@.prompt {
                Some(p) => seq![FormPartView::Text { name: "prompt"@, value: p }],
                None => Seq::<FormPartView>::empty(),
            });
            assert(base =~= seq![
                FormPartView::Text { name: "model"@, value: self@.model },
                FormPartView::Audio { name: "file"@, file_name: "audio.wav"@, mime: "audio/wav"@ },
            ]);
        }
        let url = endpoint_url(&self.base_url, OPENAI_BASE_URL, "/v1/audio/transcriptions");
        Ok(TranscriptionRequest { url, bearer: api_key, parts })
    }
}

// ---------------------------------------------------------------------------
// Retries
// ---------------------------------------------------------------------------

/// The wait before attempt `attempt` (counting from 0): 500 ms before the
/// first retry, doubling for each one after.
pub open spec fn backoff_ms(attempt: nat) -> nat
    decreases attempt,
{
    if attempt <= 1 {
        500
    } else {
        2 * backoff_ms((attempt - 1) as nat)
    }
}

/// How an attempt failed: the request never got an answer (a network
/// failure), the server answered with this status code, or the request
/// could not be prepared at all.
#[derive(Debug, Clone, Copy, PartialEq, Eq, Structural)]
pub enum AttemptFailure {
    Network,
    Reply(u16),
    Request,
}

/// Only network failures and server errors (5xx) are worth another attempt.
pub open spec fn is_retryable(f: AttemptFailure) -> bool {
    match f {
        AttemptFailure::Network => true,
        AttemptFailure::Reply(status) => 500 <= status && status <= 599,
        AttemptFailure::Request => false,
    }
}

/// After attempt `failed` (counting from 0) failed this way: the wait before
/// the next attempt, or `None` when the failure is not retried or the
/// retries are used up.
pub open spec fn next_retry(failed: u32, f: AttemptFailure) -> Option<u64> {
    if is_retryable(f) && failed < MAX_RETRIES {
        Some(backoff_ms((failed + 1) as nat) as u64)
    } else {
        None
    }
}

pub fn retry_after(failed_attempt: u32, failure: AttemptFailure) -> (r: Option<u64>)
    ensures
        r == next_retry(failed_attempt, failure),
{
    proof {
        reveal_with_fuel(backoff_ms, 3);
    }
    let retryable = match failure {
        AttemptFailure::Network => true,
        AttemptFailure::Reply(status) => 500 <= status && status <= 599,
        AttemptFailure::Request => false,
    };
    if !retryable {
        None
    } else if failed_attempt == 0 {
        Some(500)
    } else if failed_attempt == 1 {
        Some(1000)
    } else {
        None
    }
}

/// The error once every attempt failed.
pub fn exhausted() -> (e: JustTalkError)
    ensures
        e@ == ErrorView::Transcription("All Whisper API attempts exhausted"@),
{
    JustTalkError::Transcription("All Whisper API attempts exhausted".to_string())
}

/// What follows a failed attempt: `Ok` with the wait before the next one,
/// or `Err` with the error that ends the transcription: the attempt's own
/// error when it is not retried, the exhaustion error once a retryable
/// failure has used up the retries.
pub open spec fn after_failure_of(failed: u32, f: AttemptFailure, error: ErrorView) -> Result<
    u64,
    ErrorView,
> {
    match next_retry(failed, f) {
        Some(wait) => Ok(wait),
        None => if is_retryable(f) {
            Err(ErrorView::Transcription("All Whisper API attempts exhausted"@))
        } else {
            Err(error)
        },
    }
}

pub fn after_failure(failed_attempt: u32, failure: AttemptFailure, error: JustTalkError) -> (r:
    Result<u64, JustTalkError>)
    ensures
        match after_failure_of(failed_attempt, failure, error@) {
            Ok(wait) => r == Ok::<u64, JustTalkError>(wait),
            Err(e) => r matches Err(x) && x@ == e,
        },
{
    match retry_after(failed_attempt, failure) {
        Some(wait) => Ok(wait),
        None => {
            let retryable = match failure {
                AttemptFailure::Network => true,
                AttemptFailure::Reply(status) => 500 <= status && status <= 599,
                AttemptFailure::Request => false,
            };
            if retryable {
                Err(exhausted())
            } else {
                Err(error)
            }
        },
    }
}

/// A transcription is attempted at most `MAX_RETRIES + 1` times; only
/// network failures and 5xx replies are retried, after 500 ms and then
/// 1000 ms; a client error (4xx) ends the transcription with its own error.
pub proof fn lemma_retry_schedule(failed: u32, f: AttemptFailure, error: ErrorView)
    ensures
        next_retry(failed, f) is Some <==> is_retryable(f) && failed < MAX_RETRIES,
        next_retry(0, AttemptFailure::Network) == Some(500u64),
        next_retry(1, AttemptFailure::Network) == Some(1000u64),
        next_retry(2, AttemptFailure::Network) is None,
        f matches AttemptFailure::Reply(status) && 400 <= status <= 499 ==> after_failure_of(
            failed,
            f,
            error,
        ) == Err::<u64, ErrorView>(error),
{
    reveal_with_fuel(backoff_ms, 3);
}

// ---------------------------------------------------------------------------
// Reply
// ---------------------------------------------------------------------------

/// What a transcription reply comes to: its `text` field on success, else
/// the message of the failure.
pub open spec fn transcription_outcome(
    status: u16,
    status_line: Seq<char>,
    body: JsonView,
    body_debug: Seq<char>,
) -> Result<Seq<char>, Seq<char>> {
    if !crate::refine::is_success(status) {
        Err("OpenAI API returned "@ + status_line + ": "@ + body_debug)
    } else {
        match text_of(field(body, "text"@)) {
            Some(t) => Ok(t),
            None => Err("No 'text' field in OpenAI response: "@ + body_debug),
        }
    }
}

/// Read a transcription reply.
pub fn transcription_reply(status: u16, status_line: &str, body: &Json, body_debug: &str) -> (r:
    Result<String, JustTalkError>)
    ensures
        match transcription_outcome(status, status_line@, body@, body_debug@) {
            Ok(t) => r matches Ok(s) && s@ == t,
            Err(m) => r matches Err(e) && e@ == ErrorView::Transcription(m),
        },
{
    if !status_is_success(status) {
        return Err(JustTalkError::Transcription(
            "OpenAI API returned ".to_string().concat(status_line).concat(": ").concat(body_debug),
        ));
    }
    let text = match body.get("text") {
        Some(t) => t.as_str(),
        None => None,
    };
    match text {
        Some(t) => Ok(t.to_string()),
        None => Err(JustTalkError::Transcription(
            "No 'text' field in OpenAI response: ".to_string().concat(body_debug),
        )),
    }
}

/// A successful (2xx) transcription reply whose `text` field is `t` comes
/// to exactly `t`; a reply with any other status is a failure whatever its
/// body, and so is a successful reply without a `text` field.
pub proof fn lemma_transcription_reply_reads_text(
    status: u16,
    status_line: Seq<char>,
    body: JsonView,
    t: Seq<char>,
    body_debug: Seq<char>,
)
    ensures
        200 <= status <= 299 ==> transcription_outcome(
            status,
            status_line,
            JsonView::Object(seq![("text"@, JsonView::Str(t))]),
            body_debug,
        ) == Ok::<Seq<char>, Seq<char>>(t),
        !(200 <= status <= 299) ==> transcription_outcome(status, status_line, body, body_debug)
            is Err,
        200 <= status <= 299 ==> transcription_outcome(
            status,
            status_line,
            JsonView::Object(Seq::empty()),
            body_debug,
        ) is Err,
{
}

} // verus!
