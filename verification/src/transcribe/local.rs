//! Local Whisper transcription (whisper.cpp).
//!
//! This build carries no local Whisper engine: the transcriber can be
//! created, but every transcription fails with an actionable message.
use vstd::prelude::*;

use crate::config::TranscribeConfig;
use crate::error::{ErrorView, JustTalkError};
use crate::text::{str_eq, trim, trim_str};

verus! {

pub const NOT_COMPILED_IN: &'static str = "Local Whisper is not compiled in. Rebuild with `--features local-whisper` (requires cmake and a ggml model).";

#[derive(Debug)]
pub struct LocalTranscriber;

impl LocalTranscriber {
    pub fn new(config: &TranscribeConfig) -> (r: Result<Self, JustTalkError>)
        ensures
            r is Ok,
    {
        Ok(LocalTranscriber)
    }

    /// The outcome of every transcription in this build.
    pub fn transcribe(&self) -> (r: Result<String, JustTalkError>)
        ensures
            r matches Err(e) && e@ == ErrorView::Transcription(NOT_COMPILED_IN@),
    {
        Err(JustTalkError::Transcription(NOT_COMPILED_IN.to_string()))
    }
}

/// The language handed to the Whisper engine: `auto` (or no language at
/// all) lets the engine detect it; any other code is passed through.
pub open spec fn whisper_language_of(l: Option<Seq<char>>) -> Option<Seq<char>> {
    match l {
        None => None,
        Some(code) => if code == "auto"@ {
            None
        } else {
            Some(code)
        },
    }
}

pub fn whisper_language(l: &Option<String>) -> (r: Option<String>)
    ensures
        crate::text::opt_view(r) == whisper_language_of(crate::text::opt_view(*l)),
{
    match l {
        None => None,
        Some(code) => if str_eq(code.as_str(), "auto") {
            None
        } else {
            Some(code.clone())
        },
    }
}

/// The segments of a Whisper result, each trimmed and followed by a space.
pub open spec fn spaced(segs: Seq<String>) -> Seq<char>
    decreases segs.len(),
{
    if segs.len() == 0 {
        Seq::empty()
    } else {
        spaced(segs.drop_last()) + trim(segs.last()@) + " "@
    }
}

/// The transcript made of Whisper's segments: each segment trimmed, the
/// segments joined by single spaces, the whole trimmed.
pub open spec fn joined_segments(segs: Seq<String>) -> Seq<char> {
    trim(spaced(segs))
}

pub fn join_segments(segs: &Vec<String>) -> (r: String)
    ensures
        r@ == joined_segments(segs@),
{
    let mut acc = String::new();
    let mut i: usize = 0;
    assert(segs@.take(0) =~= Seq::<String>::empty());
    while i < segs.len()
        invariant
            i <= segs@.len(),
            acc@ == spaced(segs@.take(i as int)),
        decreases segs@.len() - i,
    {
        let piece = trim_str(segs[i].as_str());
        acc.append(piece.as_str());
        acc.append(" ");
        proof {
            assert(segs@.take(i + 1).drop_last() =~= segs@.take(i as int));
            assert(segs@.take(i + 1).last() == segs@[i as int]);
        }
        i = i + 1;
    }
    assert(segs@.take(segs@.len() as int) =~= segs@);
    trim_str(acc.as_str())
}

} // verus!
