//! Refinement via the OpenAI Chat Completions API (POST /v1/chat/completions).
use vstd::prelude::*;

use super::{headers_view, status_is_success, JsonRequest};
use crate::config::RefineConfig;
use crate::error::{ErrorView, JustTalkError};
use crate::json::{element, field, first_entry, text_of, Json, JsonView};
use crate::text::{endpoint, endpoint_url, opt_view};

verus! {

pub const DEFAULT_BASE_URL: &'static str = "https://api.openai.com";

#[derive(Debug)]
pub struct OpenAiRefiner {
    pub config: RefineConfig,
}

impl OpenAiRefiner {
    pub fn new(config: &RefineConfig) -> (r: Self)
        ensures
            r.config == *config,
    {
        OpenAiRefiner { config: config.duplicate() }
    }
}

/// A chat conversation: the system prompt, then the transcript from the user.
pub open spec fn chat_messages(config: RefineConfig, raw: Seq<char>) -> JsonView {
    JsonView::Array(
        seq![
            JsonView::Object(
                seq![
                    ("role"@, JsonView::Str("system"@)),
                    ("content"@, JsonView::Str(config.system_prompt@)),
                ],
            ),
            JsonView::Object(
                seq![("role"@, JsonView::Str("user"@)), ("content"@, JsonView::Str(raw))],
            ),
        ],
    )
}

/// The body of a chat-completions request: the model and the conversation.
pub open spec fn openai_body(config: RefineConfig, raw: Seq<char>) -> JsonView {
    JsonView::Object(
        seq![("model"@, JsonView::Str(config.model@)), ("messages"@, chat_messages(config, raw))],
    )
}

/// `body["choices"][0]["message"]["content"]` as a string.
pub open spec fn openai_text(body: JsonView) -> Option<Seq<char>> {
    text_of(field(field(element(field(body, "choices"@), 0), "message"@), "content"@))
}

/// Build the chat conversation for a transcript.
pub fn chat_messages_json(config: &RefineConfig, raw_text: &str) -> (r: Json)
    ensures
        r@ == chat_messages(*config, raw_text@),
{
    let system = Json::object(
        vec![
            ("role".to_string(), Json::Str("system".to_string())),
            ("content".to_string(), Json::Str(config.system_prompt.clone())),
        ],
    );
    let user = Json::object(
        vec![
            ("role".to_string(), Json::Str("user".to_string())),
            ("content".to_string(), Json::Str(raw_text.to_string())),
        ],
    );
    proof {
        assert(system@->Object_0 =~= chat_messages(*config, raw_text@)->Array_0[0]->Object_0);
        assert(user@->Object_0 =~= chat_messages(*config, raw_text@)->Array_0[1]->Object_0);
    }
    let r = Json::array(vec![system, user]);
    proof {
        assert(r@->Array_0 =~= chat_messages(*config, raw_text@)->Array_0);
    }
    r
}

/// The request that refines `raw_text`, or the error for a config without
/// an API key.
pub fn openai_request(config: &RefineConfig, raw_text: &str) -> (r: Result<JsonRequest, JustTalkError>)
    ensures
        match config.api_key {
            None => r matches Err(e) && e@ == ErrorView::Refinement(
                "refine.api_key not configured for OpenAI backend"@,
            ),
            Some(key) => r matches Ok(req) && req.url@ == endpoint(
                opt_view(config.base_url),
                DEFAULT_BASE_URL@,
                "/v1/chat/completions"@,
            ) && req.headers@.len() == 0 && req.bearer == Some(key) && req.body@ == openai_body(
                *config,
                raw_text@,
            ),
        },
{
    let api_key = match &config.api_key {
        Some(k) => k,
        None => {
            return Err(JustTalkError::Refinement(
                "refine.api_key not configured for OpenAI backend".to_string(),
            ));
        },
    };
    let url = endpoint_url(&config.base_url, DEFAULT_BASE_URL, "/v1/chat/completions");
    let messages = chat_messages_json(config, raw_text);
    let body = Json::object(
        vec![("model".to_string(), Json::Str(config.model.clone())), ("messages".to_string(), messages)],
    );
    proof {
        assert(body@->Object_0 =~= openai_body(*config, raw_text@)->Object_0);
    }
    Ok(JsonRequest { url, headers: Vec::new(), bearer: Some(api_key.clone()), body })
}

/// What a chat-completions reply comes to: the text of
/// `choices[0].message.content` on success, else the message of the failure.
pub open spec fn openai_outcome(
    status: u16,
    status_line: Seq<char>,
    body: JsonView,
    body_debug: Seq<char>,
) -> Result<Seq<char>, Seq<char>> {
    if !super::is_success(status) {
        Err("OpenAI API returned "@ + status_line + ": "@ + body_debug)
    } else {
        match openai_text(body) {
            Some(t) => Ok(t),
            None => Err("No choices[0].message.content in OpenAI response: "@ + body_debug),
        }
    }
}

/// Read a chat-completions reply.
pub fn openai_reply(status: u16, status_line: &str, body: &Json, body_debug: &str) -> (r: Result<
    String,
    JustTalkError,
>)
    ensures
        match openai_outcome(status, status_line@, body@, body_debug@) {
            Ok(t) => r matches Ok(s) && s@ == t,
            Err(m) => r matches Err(e) && e@ == ErrorView::Refinement(m),
        },
{
    if !status_is_success(status) {
        return Err(JustTalkError::Refinement(
            "OpenAI API returned ".to_string().concat(status_line).concat(": ").concat(body_debug),
        ));
    }
    let text = match body.get("choices") {
        Some(choices) => match choices.at(0) {
            Some(first) => match first.get("message") {
                Some(message) => match message.get("content") {
                    Some(t) => t.as_str(),
                    None => None,
                },
                None => None,
            },
            None => None,
        },
        None => None,
    };
    match text {
        Some(t) => Ok(t.to_string()),
        None => Err(JustTalkError::Refinement(
            "No choices[0].message.content in OpenAI response: ".to_string().concat(body_debug),
        )),
    }
}

/// The chat request carries what the config and the transcript say: the
/// configured model, the configured system prompt as the first (system)
/// message, and the transcript unchanged as the second (user) message.
pub proof fn lemma_openai_body_carries_config(config: RefineConfig, raw: Seq<char>)
    ensures
        field(openai_body(config, raw), "model"@) == JsonView::Str(config.model@),
        field(element(field(openai_body(config, raw), "messages"@), 0), "role"@) == JsonView::Str(
            "system"@,
        ),
        field(element(field(openai_body(config, raw), "messages"@), 0), "content"@)
            == JsonView::Str(config.system_prompt@),
        field(element(field(openai_body(config, raw), "messages"@), 1), "role"@) == JsonView::Str(
            "user"@,
        ),
        field(element(field(openai_body(config, raw), "messages"@), 1), "content"@)
            == JsonView::Str(raw),
{
    reveal_strlit("model");
    reveal_strlit("messages");
    reveal_strlit("role");
    reveal_strlit("content");
    reveal_with_fuel(first_entry, 3);
    assert("model"@.len() != "messages"@.len());
    assert("role"@.len() != "content"@.len());
    let body = openai_body(config, raw);
    let entries = body->Object_0;
    assert(entries.drop_first() =~= seq![("messages"@, chat_messages(config, raw))]);
    let sys = chat_messages(config, raw)->Array_0[0]->Object_0;
    let user = chat_messages(config, raw)->Array_0[1]->Object_0;
    assert(sys.drop_first() =~= seq![("content"@, JsonView::Str(config.system_prompt@))]);
    assert(user.drop_first() =~= seq![("content"@, JsonView::Str(raw))]);
    let msgs = field(body, "messages"@);
    assert(msgs == chat_messages(config, raw));
    assert(element(msgs, 0) == JsonView::Object(sys));
    assert(element(msgs, 1) == JsonView::Object(user));
    assert(sys[0].0 == "role"@);
    assert(first_entry(sys, "role"@) == Some(JsonView::Str("system"@)));
    assert(first_entry(sys, "content"@) == Some(JsonView::Str(config.system_prompt@)));
}

/// A successful (2xx) chat reply whose first choice's message has content
/// `t` comes to exactly `t`; a reply with any other status is a failure
/// whatever its body, and so is a successful reply without choices.
pub proof fn lemma_openai_reply_reads_text(
    status: u16,
    status_line: Seq<char>,
    body: JsonView,
    t: Seq<char>,
    body_debug: Seq<char>,
)
    ensures
        200 <= status <= 299 ==> openai_outcome(
            status,
            status_line,
            JsonView::Object(
                seq![
                    (
                        "choices"@,
                        JsonView::Array(
                            seq![
                                JsonView::Object(
                                    seq![
                                        (
                                            "message"@,
                                            JsonView::Object(seq![("content"@, JsonView::Str(t))]),
                                        ),
                                    ],
                                ),
                            ],
                        ),
                    ),
                ],
            ),
            body_debug,
        ) == Ok::<Seq<char>, Seq<char>>(t),
        !(200 <= status <= 299) ==> openai_outcome(status, status_line, body, body_debug) is Err,
        200 <= status <= 299 ==> openai_outcome(
            status,
            status_line,
            JsonView::Object(Seq::empty()),
            body_debug,
        ) is Err,
{
}

} // verus!
