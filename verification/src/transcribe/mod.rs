//! Transcription of 16 kHz mono PCM to text.
pub mod local;
pub mod remote;

use vstd::prelude::*;

use crate::config::{TranscribeBackend, TranscribeConfig};
use crate::error::JustTalkError;

verus! {

/// The sample rate, in Hz, of the PCM handed to a transcriber.
pub const TARGET_SAMPLE_RATE: u32 = 16_000;

/// The configured transcriber.
#[derive(Debug)]
pub enum Transcriber {
    Local(local::LocalTranscriber),
    Remote(remote::RemoteTranscriber),
}

/// Create the transcriber that the config selects.
pub fn create_transcriber(config: &TranscribeConfig) -> (r: Result<Transcriber, JustTalkError>)
    ensures
        match config.backend {
            TranscribeBackend::Local => r matches Ok(Transcriber::Local(_)),
            TranscribeBackend::OpenAi => r matches Ok(Transcriber::Remote(t)) && t@
                == remote::settings_of(*config),
        },
{
    match config.backend {
        TranscribeBackend::Local => Ok(Transcriber::Local(local::LocalTranscriber::new(config)?)),
        TranscribeBackend::OpenAi => Ok(Transcriber::Remote(remote::RemoteTranscriber::new(config))),
    }
}

} // verus!
