use just_talk::config::{TranscribeBackend, TranscribeConfig};
use just_talk::json::Json;
use just_talk::error::JustTalkError;
use just_talk::transcribe::local::{join_segments, whisper_language, LocalTranscriber};
use just_talk::transcribe::remote::{
    after_failure, exhausted, retry_after, transcription_reply, AttemptFailure, FormPart,
    RemoteTranscriber,
};
use just_talk::transcribe::{create_transcriber, Transcriber};

#[test]
fn placeholder_transcribe() {
    // Compile-time guard: ensure the transcribe module is importable.
}

fn remote_config(language: Option<&str>, prompt: Option<&str>, key: Option<&str>) -> TranscribeConfig {
    TranscribeConfig {
        backend: TranscribeBackend::OpenAi,
        model_path: None,
        language: language.map(|s| s.to_string()),
        prompt: prompt.map(|s| s.to_string()),
        openai_api_key: key.map(|s| s.to_string()),
        openai_model: "whisper-large-v3-turbo".into(),
        base_url: Some("https://api.groq.com/openai/".into()),
    }
}

fn text_parts(parts: &[FormPart]) -> Vec<(String, String)> {
    parts
        .iter()
        .filter_map(|p| match p {
            FormPart::Text { name, value } => Some((name.clone(), value.clone())),
            FormPart::Audio { .. } => None,
        })
        .collect()
}

#[test]
fn remote_request_form() {
    let t = RemoteTranscriber::new(&remote_config(Some("zh"), Some("Vocabulary"), Some("gsk_1")));
    let req = t.request().unwrap();
    assert_eq!(req.url, "https://api.groq.com/openai/v1/audio/transcriptions");
    assert_eq!(req.bearer, "gsk_1");
    assert!(matches!(&req.parts[1], FormPart::Audio { name, file_name, mime }
        if name == "file" && file_name == "audio.wav" && mime == "audio/wav"));
    assert_eq!(
        text_parts(&req.parts),
        vec![
            ("model".to_string(), "whisper-large-v3-turbo".to_string()),
            ("language".to_string(), "zh".to_string()),
            ("prompt".to_string(), "Vocabulary".to_string()),
        ]
    );
    let auto = RemoteTranscriber::new(&remote_config(Some("auto"), None, Some("k"))).request().unwrap();
    assert_eq!(text_parts(&auto.parts), vec![("model".to_string(), "whisper-large-v3-turbo".to_string())]);
    let e = RemoteTranscriber::new(&remote_config(None, None, None)).request().unwrap_err();
    assert_eq!(e.into_detail(), "transcribe.openai_api_key not configured");
}

#[test]
fn retries_back_off_then_give_up() {
    assert_eq!(retry_after(0, AttemptFailure::Network), Some(500));
    assert_eq!(retry_after(1, AttemptFailure::Reply(503)), Some(1000));
    assert_eq!(retry_after(2, AttemptFailure::Network), None);
    assert_eq!(retry_after(0, AttemptFailure::Reply(401)), None);
    assert_eq!(retry_after(0, AttemptFailure::Reply(200)), None);
    assert_eq!(retry_after(0, AttemptFailure::Request), None);
    assert_eq!(exhausted().into_detail(), "All Whisper API attempts exhausted");
}

#[test]
fn transcription_reply_reads_text() {
    let body = Json::Object(vec![("text".to_string(), Json::Str("hello".to_string()))]);
    assert_eq!(transcription_reply(200, "200 OK", &body, "").unwrap(), "hello");
    let e = transcription_reply(401, "401 Unauthorized", &body, "{..}").unwrap_err();
    assert_eq!(e.into_detail(), "OpenAI API returned 401 Unauthorized: {..}");
    let e = transcription_reply(200, "200 OK", &Json::Null, "Null").unwrap_err();
    assert_eq!(e.into_detail(), "No 'text' field in OpenAI response: Null");
}

#[test]
fn factory_and_local_stub() {
    assert!(matches!(create_transcriber(&TranscribeConfig::default()), Ok(Transcriber::Local(_))));
    assert!(matches!(create_transcriber(&remote_config(None, None, None)), Ok(Transcriber::Remote(_))));
    let e = LocalTranscriber.transcribe().unwrap_err();
    assert!(e.into_detail().starts_with("Local Whisper is not compiled in."));
}

#[test]
fn client_errors_are_not_retried() {
    let e = JustTalkError::transcription("OpenAI API returned 401 Unauthorized: {}");
    let r = after_failure(0, AttemptFailure::Reply(401), e);
    assert!(matches!(r, Err(JustTalkError::Transcription(m)) if m == "OpenAI API returned 401 Unauthorized: {}"));
    let r = after_failure(0, AttemptFailure::Reply(500), JustTalkError::transcription("x"));
    assert!(matches!(r, Ok(500)));
    let r = after_failure(2, AttemptFailure::Network, JustTalkError::transcription("x"));
    assert!(matches!(r, Err(JustTalkError::Transcription(m)) if m == "All Whisper API attempts exhausted"));
}

#[test]
fn whisper_language_auto_means_detect() {
    assert_eq!(whisper_language(&None), None);
    assert_eq!(whisper_language(&Some("auto".to_string())), None);
    assert_eq!(whisper_language(&Some("zh".to_string())), Some("zh".to_string()));
}

#[test]
fn whisper_segments_are_trimmed_and_joined() {
    let segs = vec![" Hello".to_string(), "world \n".to_string(), "  ".to_string(), "again".to_string()];
    assert_eq!(join_segments(&segs), "Hello world  again");
    assert_eq!(join_segments(&Vec::new()), "");
}
