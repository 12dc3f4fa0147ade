//! Refinement of a raw transcript by a language model.
//!
//! Each backend turns a transcript into an HTTP request, and the response
//! into the refined text. A failed refinement never loses the dictation: the
//! raw transcript is delivered instead.
pub mod claude;
pub mod ollama;
pub mod openai;
pub mod passthrough;

use vstd::prelude::*;

use crate::config::{RefineBackend, RefineConfig};
use crate::error::JustTalkError;
use crate::json::Json;

verus! {

/// A POST request with a JSON body.
#[derive(Debug)]
pub struct JsonRequest {
    pub url: String,
    /// Extra headers, in order.
    pub headers: Vec<(String, String)>,
    /// A bearer token for the `Authorization` header.
    pub bearer: Option<String>,
    pub body: Json,
}

pub open spec fn headers_view(h: Seq<(String, String)>) -> Seq<(Seq<char>, Seq<char>)> {
    h.map_values(|p: (String, String)| (p.0@, p.1@))
}

/// Whether an HTTP status code reports success (2xx).
pub open spec fn is_success(status: u16) -> bool {
    200 <= status <= 299
}

pub fn status_is_success(status: u16) -> (r: bool)
    ensures
        r == is_success(status),
{
    200 <= status && status <= 299
}

/// The configured refiner.
#[derive(Debug)]
pub enum Refiner {
    Claude(claude::ClaudeRefiner),
    OpenAi(openai::OpenAiRefiner),
    Ollama(ollama::OllamaRefiner),
    Passthrough(passthrough::PassthroughRefiner),
}

/// Create the refiner that the config selects.
pub fn create_refiner(config: &RefineConfig) -> (r: Refiner)
    ensures
        match config.backend {
            RefineBackend::Claude => r matches Refiner::Claude(c) && c.config == *config,
            RefineBackend::OpenAi => r matches Refiner::OpenAi(c) && c.config == *config,
            RefineBackend::Ollama => r matches Refiner::Ollama(c) && c.config == *config,
            RefineBackend::Passthrough => r is Passthrough,
        },
{
    match config.backend {
        RefineBackend::Claude => Refiner::Claude(claude::ClaudeRefiner::new(config)),
        RefineBackend::OpenAi => Refiner::OpenAi(openai::OpenAiRefiner::new(config)),
        RefineBackend::Ollama => Refiner::Ollama(ollama::OllamaRefiner::new(config)),
        RefineBackend::Passthrough => Refiner::Passthrough(passthrough::PassthroughRefiner),
    }
}

/// The refined text, or the raw transcript when the backend failed.
pub open spec fn refined_or_raw(raw: Seq<char>, outcome: Result<Seq<char>, ()>) -> Seq<char> {
    match outcome {
        Ok(t) => t,
        Err(_) => raw,
    }
}

pub open spec fn outcome_text(outcome: Result<String, JustTalkError>) -> Result<Seq<char>, ()> {
    match outcome {
        Ok(t) => Ok(t@),
        Err(_) => Err(()),
    }
}

/// What a refiner hands back: the backend's text, or on any failure the raw
/// transcript unchanged, so the user never loses the dictation.
pub fn refined_text(raw_text: &str, outcome: Result<String, JustTalkError>) -> (r: String)
    ensures
        r@ == refined_or_raw(raw_text@, outcome_text(outcome)),
{
    match outcome {
        Ok(text) => text,
        Err(_) => raw_text.to_string(),
    }
}

/// A refinement never fails and never loses the dictation: whatever the
/// backend answered, the result is its text or the raw transcript.
pub proof fn lemma_refinement_keeps_dictation(raw: Seq<char>, outcome: Result<Seq<char>, ()>)
    ensures
        refined_or_raw(raw, outcome) == raw || outcome == Ok::<Seq<char>, ()>(
            refined_or_raw(raw, outcome),
        ),
        outcome is Err ==> refined_or_raw(raw, outcome) == raw,
{
}

} // verus!
