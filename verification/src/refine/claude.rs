//! Refinement via the Anthropic Messages API (POST /v1/messages).
use vstd::prelude::*;

use super::{headers_view, status_is_success, JsonRequest};
use crate::config::RefineConfig;
use crate::error::{ErrorView, JustTalkError};
use crate::json::{element, field, first_entry, text_of, Json, JsonView};
use crate::text::{endpoint, endpoint_url, opt_view};

verus! {

pub const DEFAULT_BASE_URL: &'static str = "https://api.anthropic.com";

pub const ANTHROPIC_VERSION: &'static str = "2023-06-01";

/// The largest reply, in tokens, that a refinement asks for.
pub const MAX_TOKENS: u32 = 1024;

#[derive(Debug)]
pub struct ClaudeRefiner {
    pub config: RefineConfig,
}

impl ClaudeRefiner {
    pub fn new(config: &RefineConfig) -> (r: Self)
        ensures
            r.config == *config,
    {
        ClaudeRefiner { config: config.duplicate() }
    }
}

/// The body of a Messages request: the model, the token limit, the system
/// prompt, and the transcript as the one user message.
pub open spec fn claude_body(config: RefineConfig, raw: Seq<char>) -> JsonView {
    JsonView::Object(
        seq![
            ("model"@, JsonView::Str(config.model@)),
            ("max_tokens"@, JsonView::Number("1024"@)),
            ("system"@, JsonView::Str(config.system_prompt@)),
            (
                "messages"@,
                JsonView::Array(
                    seq![
                        JsonView::Object(
                            seq![
                                ("role"@, JsonView::Str("user"@)),
                                ("content"@, JsonView::Str(raw)),
                            ],
                        ),
                    ],
                ),
            ),
        ],
    )
}

/// `body["content"][0]["text"]` as a string.
pub open spec fn claude_text(body: JsonView) -> Option<Seq<char>> {
    text_of(field(element(field(body, "content"@), 0), "text"@))
}

/// The request that refines `raw_text`, or the error for a config without
/// an API key.
pub fn claude_request(config: &RefineConfig, raw_text: &str) -> (r: Result<JsonRequest, JustTalkError>)
    ensures
        match config.api_key {
            None => r matches Err(e) && e@ == ErrorView::Refinement(
                "refine.api_key not configured for Anthropic backend"@,
            ),
            Some(key) => r matches Ok(req) && req.url@ == endpoint(
                opt_view(config.base_url),
                DEFAULT_BASE_URL@,
                "/v1/messages"@,
            ) && headers_view(req.headers@) == seq![
                ("x-api-key"@, key@),
                ("anthropic-version"@, ANTHROPIC_VERSION@),
                ("content-type"@, "application/json"@),
            ] && req.bearer is None && req.body@ == claude_body(*config, raw_text@),
        },
{
    let api_key = match &config.api_key {
        Some(k) => k,
        None => {
            return Err(JustTalkError::Refinement(
                "refine.api_key not configured for Anthropic backend".to_string(),
            ));
        },
    };
    let url = endpoint_url(&config.base_url, DEFAULT_BASE_URL, "/v1/messages");
    let headers = vec![
        ("x-api-key".to_string(), api_key.clone()),
        ("anthropic-version".to_string(), ANTHROPIC_VERSION.to_string()),
        ("content-type".to_string(), "application/json".to_string()),
    ];
    let message = Json::object(
        vec![
            ("role".to_string(), Json::Str("user".to_string())),
            ("content".to_string(), Json::Str(raw_text.to_string())),
        ],
    );
    proof {
        assert(message@->Object_0 =~= seq![
            ("role"@, JsonView::Str("user"@)),
            ("content"@, JsonView::Str(raw_text@)),
        ]);
    }
    let messages = Json::array(vec![message]);
    proof {
        assert(messages@->Array_0 =~= seq![message@]);
    }
    let body = Json::object(
        vec![
            ("model".to_string(), Json::Str(config.model.clone())),
            ("max_tokens".to_string(), Json::Number("1024".to_string())),
            ("system".to_string(), Json::Str(config.system_prompt.clone())),
            ("messages".to_string(), messages),
        ],
    );
    proof {
        assert(headers_view(headers@) =~= seq![
            ("x-api-key"@, api_key@),
            ("anthropic-version"@, ANTHROPIC_VERSION@),
            ("content-type"@, "application/json"@),
        ]);
        assert(body@->Object_0 =~= claude_body(*config, raw_text@)->Object_0);
    }
    Ok(JsonRequest { url, headers, bearer: None, body })
}

/// What a Messages reply comes to: the text of `content[0].text` on success,
/// else the message of the failure.
pub open spec fn claude_outcome(
    status: u16,
    status_line: Seq<char>,
    body: JsonView,
    body_debug: Seq<char>,
) -> Result<Seq<char>, Seq<char>> {
    if !super::is_success(status) {
        Err("Anthropic API returned "@ + status_line + ": "@ + body_debug)
    } else {
        match claude_text(body) {
            Some(t) => Ok(t),
            None => Err("No content[0].text in Anthropic response: "@ + body_debug),
        }
    }
}

/// Read a Messages reply: its status code (and status line, for messages),
/// its parsed body, and the body as text for messages.
pub fn claude_reply(status: u16, status_line: &str, body: &Json, body_debug: &str) -> (r: Result<
    String,
    JustTalkError,
>)
    ensures
        match claude_outcome(status, status_line@, body@, body_debug@) {
            Ok(t) => r matches Ok(s) && s@ == t,
            Err(m) => r matches Err(e) && e@ == ErrorView::Refinement(m),
        },
{
    if !status_is_success(status) {
        return Err(JustTalkError::Refinement(
            "Anthropic API returned ".to_string().concat(status_line).concat(": ").concat(body_debug),
        ));
    }
    let text = match body.get("content") {
        Some(content) => match content.at(0) {
            Some(first) => match first.get("text") {
                Some(t) => t.as_str(),
                None => None,
            },
            None => None,
        },
        None => None,
    };
    match text {
        Some(t) => Ok(t.to_string()),
        None => Err(JustTalkError::Refinement(
            "No content[0].text in Anthropic response: ".to_string().concat(body_debug),
        )),
    }
}

/// The Messages request carries what the config and the transcript say: the
/// configured model and system prompt, the token limit, and the transcript
/// unchanged as the one user message.
pub proof fn lemma_claude_body_carries_config(config: RefineConfig, raw: Seq<char>)
    ensures
        field(claude_body(config, raw), "model"@) == JsonView::Str(config.model@),
        field(claude_body(config, raw), "max_tokens"@) == JsonView::Number("1024"@),
        field(claude_body(config, raw), "system"@) == JsonView::Str(config.system_prompt@),
        field(element(field(claude_body(config, raw), "messages"@), 0), "role"@) == JsonView::Str(
            "user"@,
        ),
        field(element(field(claude_body(config, raw), "messages"@), 0), "content"@)
            == JsonView::Str(raw),
{
    reveal_strlit("model");
    reveal_strlit("max_tokens");
    reveal_strlit("system");
    reveal_strlit("messages");
    reveal_strlit("role");
    reveal_strlit("content");
    reveal_with_fuel(first_entry, 5);
    assert("model"@.len() != "max_tokens"@.len());
    assert("model"@.len() != "system"@.len());
    assert("model"@.len() != "messages"@.len());
    assert("max_tokens"@.len() != "system"@.len());
    assert("max_tokens"@.len() != "messages"@.len());
    assert("system"@.len() != "messages"@.len());
    assert("role"@.len() != "content"@.len());
    let entries = claude_body(config, raw)->Object_0;
    assert(entries.drop_first().drop_first().drop_first() =~= seq![entries[3]]);
    assert(entries.drop_first().drop_first() =~= seq![entries[2], entries[3]]);
    assert(entries.drop_first() =~= seq![entries[1], entries[2], entries[3]]);
    let msg = entries[3].1->Array_0[0]->Object_0;
    assert(msg.drop_first() =~= seq![msg[1]]);
}

/// A successful (2xx) Messages reply whose first content block carries the
/// text `t` comes to exactly `t`; a reply with any other status is a
/// failure whatever its body, and so is a successful reply without content.
pub proof fn lemma_claude_reply_reads_text(
    status: u16,
    status_line: Seq<char>,
    body: JsonView,
    t: Seq<char>,
    body_debug: Seq<char>,
)
    ensures
        200 <= status <= 299 ==> claude_outcome(
            status,
            status_line,
            JsonView::Object(
                seq![
                    (
                        "content"@,
                        JsonView::Array(
                            seq![JsonView::Object(seq![("text"@, JsonView::Str(t))])],
                        ),
                    ),
                ],
            ),
            body_debug,
        ) == Ok::<Seq<char>, Seq<char>>(t),
        !(200 <= status <= 299) ==> claude_outcome(status, status_line, body, body_debug) is Err,
        200 <= status <= 299 ==> claude_outcome(
            status,
            status_line,
            JsonView::Object(Seq::empty()),
            body_debug,
        ) is Err,
{
}

} // verus!
