//! Refinement via the Ollama local API (POST /api/chat, non-streaming).
use vstd::prelude::*;

use super::openai::{chat_messages, chat_messages_json};
use super::{status_is_success, JsonRequest};
use crate::config::RefineConfig;
use crate::error::{ErrorView, JustTalkError};
use crate::json::{element, field, first_entry, text_of, Json, JsonView};
use crate::text::{endpoint, endpoint_url, first_nonblank, first_nonblank_line, opt_view};

verus! {

pub const DEFAULT_BASE_URL: &'static str = "http://localhost:11434";

#[derive(Debug)]
pub struct OllamaRefiner {
    pub config: RefineConfig,
}

impl OllamaRefiner {
    pub fn new(config: &RefineConfig) -> (r: Self)
        ensures
            r.config == *config,
    {
        OllamaRefiner { config: config.duplicate() }
    }
}

/// The body of a chat request: the model, streaming off, and the
/// conversation.
pub open spec fn ollama_body(config: RefineConfig, raw: Seq<char>) -> JsonView {
    JsonView::Object(
        seq![
            ("model"@, JsonView::Str(config.model@)),
            ("stream"@, JsonView::Bool(false)),
            ("messages"@, chat_messages(config, raw)),
        ],
    )
}

/// `body["message"]["content"]` as a string.
pub open spec fn ollama_text(body: JsonView) -> Option<Seq<char>> {
    text_of(field(field(body, "message"@), "content"@))
}

/// The request that refines `raw_text`; Ollama needs no API key.
pub fn ollama_request(config: &RefineConfig, raw_text: &str) -> (r: JsonRequest)
    ensures
        r.url@ == endpoint(opt_view(config.base_url), DEFAULT_BASE_URL@, "/api/chat"@),
        r.headers@.len() == 0,
        r.bearer is None,
        r.body@ == ollama_body(*config, raw_text@),
{
    let url = endpoint_url(&config.base_url, DEFAULT_BASE_URL, "/api/chat");
    let messages = chat_messages_json(config, raw_text);
    let body = Json::object(
        vec![
            ("model".to_string(), Json::Str(config.model.clone())),
            ("stream".to_string(), Json::Bool(false)),
            ("messages".to_string(), messages),
        ],
    );
    proof {
        assert(body@->Object_0 =~= ollama_body(*config, raw_text@)->Object_0);
    }
    JsonRequest { url, headers: Vec::new(), bearer: None, body }
}

/// The part of a reply that is parsed: with streaming off Ollama sends one
/// JSON object, but should it send NDJSON anyway, only its first non-blank
/// line is read.
pub open spec fn reply_line(text: Seq<char>) -> Seq<char> {
    match first_nonblank(text) {
        Some(l) => l,
        None => text,
    }
}

pub fn ollama_reply_line(text: &str) -> (r: String)
    ensures
        r@ == reply_line(text@),
{
    match first_nonblank_line(text) {
        Some(l) => l,
        None => text.to_string(),
    }
}

/// What a chat reply comes to, given its status, the line that was parsed
/// and the outcome of parsing it: the text of `message.content`, else the
/// message of the failure. A parse failure is reported before the status.
pub open spec fn ollama_outcome(
    status: u16,
    status_line: Seq<char>,
    line: Seq<char>,
    parsed: Result<JsonView, Seq<char>>,
    body_debug: Seq<char>,
) -> Result<Seq<char>, Seq<char>> {
    match parsed {
        Err(pe) => Err("Ollama JSON parse failed: "@ + pe + " — body: "@ + line),
        Ok(body) => if !super::is_success(status) {
            Err("Ollama API returned "@ + status_line + ": "@ + body_debug)
        } else {
            match ollama_text(body) {
                Some(t) => Ok(t),
                None => Err("No message.content in Ollama response: "@ + body_debug),
            }
        },
    }
}

pub open spec fn parsed_view(p: Result<Json, String>) -> Result<JsonView, Seq<char>> {
    match p {
        Ok(j) => Ok(j@),
        Err(e) => Err(e@),
    }
}

/// Read a chat reply: its status, the line that was parsed, the outcome of
/// parsing it (the parser's message on failure), and the parsed body as
/// text for messages.
pub fn ollama_reply(
    status: u16,
    status_line: &str,
    line: &str,
    parsed: Result<Json, String>,
    body_debug: &str,
) -> (r: Result<String, JustTalkError>)
    ensures
        match ollama_outcome(status, status_line@, line@, parsed_view(parsed), body_debug@) {
            Ok(t) => r matches Ok(s) && s@ == t,
            Err(m) => r matches Err(e) && e@ == ErrorView::Refinement(m),
        },
{
    let body = match parsed {
        Ok(b) => b,
        Err(pe) => {
            return Err(JustTalkError::Refinement(
                "Ollama JSON parse failed: ".to_string().concat(pe.as_str()).concat(
                    " — body: ",
                ).concat(line),
            ));
        },
    };
    if !status_is_success(status) {
        return Err(JustTalkError::Refinement(
            "Ollama API returned ".to_string().concat(status_line).concat(": ").concat(body_debug),
        ));
    }
    let text = match body.get("message") {
        Some(message) => match message.get("content") {
            Some(t) => t.as_str(),
            None => None,
        },
        None => None,
    };
    match text {
        Some(t) => Ok(t.to_string()),
        None => Err(JustTalkError::Refinement(
            "No message.content in Ollama response: ".to_string().concat(body_debug),
        )),
    }
}

/// The chat request carries what the config and the transcript say: the
/// configured model, no streaming, the configured system prompt as the first
/// message and the transcript unchanged as the second.
pub proof fn lemma_ollama_body_carries_config(config: RefineConfig, raw: Seq<char>)
    ensures
        field(ollama_body(config, raw), "model"@) == JsonView::Str(config.model@),
        field(ollama_body(config, raw), "stream"@) == JsonView::Bool(false),
        field(element(field(ollama_body(config, raw), "messages"@), 0), "content"@)
            == JsonView::Str(config.system_prompt@),
        field(element(field(ollama_body(config, raw), "messages"@), 1), "content"@)
            == JsonView::Str(raw),
{
    reveal_strlit("model");
    reveal_strlit("stream");
    reveal_strlit("messages");
    reveal_strlit("role");
    reveal_strlit("content");
    reveal_with_fuel(first_entry, 4);
    assert("model"@.len() != "stream"@.len());
    assert("model"@.len() != "messages"@.len());
    assert("stream"@.len() != "messages"@.len());
    assert("role"@.len() != "content"@.len());
    let entries = ollama_body(config, raw)->Object_0;
    assert(entries.drop_first().drop_first() =~= seq![entries[2]]);
    assert(entries.drop_first() =~= seq![entries[1], entries[2]]);
    let sys = entries[2].1->Array_0[0]->Object_0;
    let user = entries[2].1->Array_0[1]->Object_0;
    assert(sys.drop_first() =~= seq![sys[1]]);
    assert(user.drop_first() =~= seq![user[1]]);
}

/// A successful (2xx) chat reply that parsed, whose message has content `t`,
/// comes to exactly `t`; a reply that did not parse, or came with any other
/// status, is a failure whatever it holds.
pub proof fn lemma_ollama_reply_reads_text(
    status: u16,
    status_line: Seq<char>,
    line: Seq<char>,
    parsed: Result<JsonView, Seq<char>>,
    t: Seq<char>,
    body_debug: Seq<char>,
)
    ensures
        200 <= status <= 299 ==> ollama_outcome(
            status,
            status_line,
            line,
            Ok(JsonView::Object(
                seq![("message"@, JsonView::Object(seq![("content"@, JsonView::Str(t))]))],
            )),
            body_debug,
        ) == Ok::<Seq<char>, Seq<char>>(t),
        parsed is Err ==> ollama_outcome(status, status_line, line, parsed, body_debug) is Err,
        !(200 <= status <= 299) ==> ollama_outcome(status, status_line, line, parsed, body_debug)
            is Err,
{
}

} // verus!
