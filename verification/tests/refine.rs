use just_talk::config::{RefineBackend, RefineConfig};
use just_talk::json::Json;
use just_talk::refine::claude::{claude_reply, claude_request, ClaudeRefiner};
use just_talk::refine::ollama::{ollama_reply, ollama_reply_line, ollama_request, OllamaRefiner};
use just_talk::refine::openai::{openai_reply, openai_request, OpenAiRefiner};
use just_talk::refine::passthrough::PassthroughRefiner;
use just_talk::refine::{create_refiner, refined_text, Refiner};
use just_talk::error::JustTalkError;

fn s(x: &str) -> Json {
    Json::Str(x.to_string())
}
fn obj(entries: Vec<(&str, Json)>) -> Json {
    Json::Object(entries.into_iter().map(|(k, v)| (k.to_string(), v)).collect())
}

fn config(backend: RefineBackend, base_url: &str, api_key: Option<&str>) -> RefineConfig {
    RefineConfig {
        backend,
        model: "m-1".into(),
        system_prompt: "Fix punctuation.".into(),
        api_key: api_key.map(|k| k.to_string()),
        base_url: Some(base_url.to_string()),
    }
}

#[test]
fn claude_new_does_not_panic() {
    let cfg = RefineConfig::default();
    let _ = ClaudeRefiner::new(&cfg);
}

#[test]
fn ollama_new_does_not_panic() {
    let cfg = RefineConfig::default();
    let _ = OllamaRefiner::new(&cfg);
}

#[test]
fn openai_new_does_not_panic() {
    let cfg = RefineConfig::default();
    let _ = OpenAiRefiner::new(&cfg);
}

#[test]
fn placeholder_refine() {}

#[test]
fn passthrough_refine_returns_input_unchanged() {
    assert_eq!(PassthroughRefiner.refine("hello world"), "hello world");
}

#[test]
fn factory_follows_backend() {
    assert!(matches!(create_refiner(&RefineConfig::default()), Refiner::Passthrough(_)));
    let c = config(RefineBackend::Claude, "http://x", Some("k"));
    match create_refiner(&c) {
        Refiner::Claude(r) => assert_eq!(r.config.model, "m-1"),
        other => panic!("unexpected {other:?}"),
    }
    assert!(matches!(create_refiner(&config(RefineBackend::OpenAi, "http://x", None)), Refiner::OpenAi(_)));
    assert!(matches!(create_refiner(&config(RefineBackend::Ollama, "http://x", None)), Refiner::Ollama(_)));
}

#[test]
fn claude_request_shape() {
    let req = claude_request(&config(RefineBackend::Claude, "http://127.0.0.1:9/", Some("sk-test-key")), "raw text").unwrap();
    assert_eq!(req.url, "http://127.0.0.1:9/v1/messages");
    assert_eq!(
        req.headers,
        vec![
            ("x-api-key".to_string(), "sk-test-key".to_string()),
            ("anthropic-version".to_string(), "2023-06-01".to_string()),
            ("content-type".to_string(), "application/json".to_string()),
        ]
    );
    assert!(req.bearer.is_none());
    let body = &req.body;
    assert_eq!(body.get("model").unwrap().as_str(), Some("m-1"));
    assert!(matches!(body.get("max_tokens"), Some(Json::Number(n)) if n == "1024"));
    assert_eq!(body.get("system").unwrap().as_str(), Some("Fix punctuation."));
    let msg = body.get("messages").unwrap().at(0).unwrap();
    assert_eq!(msg.get("role").unwrap().as_str(), Some("user"));
    assert_eq!(msg.get("content").unwrap().as_str(), Some("raw text"));

    let e = claude_request(&config(RefineBackend::Claude, "http://x", None), "t").unwrap_err();
    assert!(matches!(e, JustTalkError::Refinement(m) if m == "refine.api_key not configured for Anthropic backend"));
}

#[test]
fn claude_reply_reads_first_content_text() {
    let body = obj(vec![
        ("id", s("msg_01")),
        ("content", Json::Array(vec![obj(vec![("type", s("text")), ("text", s("Refined output."))])])),
    ]);
    assert_eq!(claude_reply(200, "200 OK", &body, "{..}").unwrap(), "Refined output.");
    let e = claude_reply(500, "500 Internal Server Error", &body, "{..}").unwrap_err();
    assert_eq!(e.into_detail(), "Anthropic API returned 500 Internal Server Error: {..}");
    let e = claude_reply(200, "200 OK", &obj(vec![]), "{}").unwrap_err();
    assert_eq!(e.into_detail(), "No content[0].text in Anthropic response: {}");
}

#[test]
fn openai_request_and_reply() {
    let req = openai_request(&config(RefineBackend::OpenAi, "https://api.example.com//", Some("sk-test-openai")), "raw text").unwrap();
    assert_eq!(req.url, "https://api.example.com/v1/chat/completions");
    assert_eq!(req.bearer.as_deref(), Some("sk-test-openai"));
    assert!(req.headers.is_empty());
    let msgs = req.body.get("messages").unwrap();
    assert_eq!(msgs.at(0).unwrap().get("role").unwrap().as_str(), Some("system"));
    assert_eq!(msgs.at(0).unwrap().get("content").unwrap().as_str(), Some("Fix punctuation."));
    assert_eq!(msgs.at(1).unwrap().get("content").unwrap().as_str(), Some("raw text"));
    assert!(msgs.at(2).is_none());

    let body = obj(vec![(
        "choices",
        Json::Array(vec![obj(vec![("message", obj(vec![("role", s("assistant")), ("content", s("OpenAI refined."))]))])]),
    )]);
    assert_eq!(openai_reply(200, "200 OK", &body, "").unwrap(), "OpenAI refined.");
    assert!(openai_reply(200, "200 OK", &s("x"), "").is_err());
    assert!(openai_request(&config(RefineBackend::OpenAi, "http://x", None), "t").is_err());
}

#[test]
fn ollama_request_and_reply() {
    let mut cfg = config(RefineBackend::Ollama, "", None);
    cfg.base_url = None;
    let req = ollama_request(&cfg, "raw text");
    assert_eq!(req.url, "http://localhost:11434/api/chat");
    assert!(matches!(req.body.get("stream"), Some(Json::Bool(false))));

    let line = ollama_reply_line("\n  \r\n{\"message\":{}}\r\n{\"more\":1}\n");
    assert_eq!(line, "{\"message\":{}}");
    assert_eq!(ollama_reply_line("   "), "   ");

    let body = obj(vec![("message", obj(vec![("content", s("Ollama refined."))]))]);
    assert_eq!(ollama_reply(200, "200 OK", "{..}", Ok(body), "").unwrap(), "Ollama refined.");
    let e = ollama_reply(500, "500", "x", Err("expected value".into()), "").unwrap_err();
    assert_eq!(e.into_detail(), "Ollama JSON parse failed: expected value — body: x");
    let e = ollama_reply(500, "500 Internal Server Error", "{}", Ok(obj(vec![])), "Object {}").unwrap_err();
    assert_eq!(e.into_detail(), "Ollama API returned 500 Internal Server Error: Object {}");
}

#[test]
fn failed_refinement_keeps_raw_text() {
    assert_eq!(refined_text("my raw text", Err(JustTalkError::refinement("overloaded"))), "my raw text");
    assert_eq!(refined_text("my raw text", Ok("My raw text.".into())), "My raw text.");
}
