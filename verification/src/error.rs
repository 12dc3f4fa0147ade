use vstd::prelude::*;

verus! {

/// The errors of the dictation pipeline, one variant per stage.
#[derive(Debug)]
pub enum JustTalkError {
    AudioCapture(String),
    Transcription(String),
    Refinement(String),
    Output(String),
    Config(String),
    Hotkey(String),
}

/// The abstract value of an error: its variant with the detail text.
pub enum ErrorView {
    AudioCapture(Seq<char>),
    Transcription(Seq<char>),
    Refinement(Seq<char>),
    Output(Seq<char>),
    Config(Seq<char>),
    Hotkey(Seq<char>),
}

impl View for JustTalkError {
    type V = ErrorView;

    open spec fn view(&self) -> ErrorView {
        match self {
            JustTalkError::AudioCapture(m) => ErrorView::AudioCapture(m@),
            JustTalkError::Transcription(m) => ErrorView::Transcription(m@),
            JustTalkError::Refinement(m) => ErrorView::Refinement(m@),
            JustTalkError::Output(m) => ErrorView::Output(m@),
            JustTalkError::Config(m) => ErrorView::Config(m@),
            JustTalkError::Hotkey(m) => ErrorView::Hotkey(m@),
        }
    }
}

/// The human-readable message of an error: the variant's prefix followed by
/// its detail text.
pub open spec fn error_message(e: ErrorView) -> Seq<char> {
    match e {
        ErrorView::AudioCapture(m) => "Audio capture failed: "@ + m,
        ErrorView::Transcription(m) => "Transcription failed: "@ + m,
        ErrorView::Refinement(m) => "AI refinement failed: "@ + m,
        ErrorView::Output(m) => "Output failed: "@ + m,
        ErrorView::Config(m) => "Config error: "@ + m,
        ErrorView::Hotkey(m) => "Hotkey registration failed: "@ + m,
    }
}

/// The detail text of an error.
pub open spec fn error_detail(e: ErrorView) -> Seq<char> {
    match e {
        ErrorView::AudioCapture(m) => m,
        ErrorView::Transcription(m) => m,
        ErrorView::Refinement(m) => m,
        ErrorView::Output(m) => m,
        ErrorView::Config(m) => m,
        ErrorView::Hotkey(m) => m,
    }
}

impl JustTalkError {
    pub fn audio(msg: &str) -> (e: Self)
        ensures
            e matches JustTalkError::AudioCapture(m) && m@ == msg@,
    {
        JustTalkError::AudioCapture(msg.to_string())
    }

    pub fn transcription(msg: &str) -> (e: Self)
        ensures
            e matches JustTalkError::Transcription(m) && m@ == msg@,
    {
        JustTalkError::Transcription(msg.to_string())
    }

    pub fn refinement(msg: &str) -> (e: Self)
        ensures
            e matches JustTalkError::Refinement(m) && m@ == msg@,
    {
        JustTalkError::Refinement(msg.to_string())
    }

    pub fn output(msg: &str) -> (e: Self)
        ensures
            e matches JustTalkError::Output(m) && m@ == msg@,
    {
        JustTalkError::Output(msg.to_string())
    }

    pub fn config(msg: &str) -> (e: Self)
        ensures
            e matches JustTalkError::Config(m) && m@ == msg@,
    {
        JustTalkError::Config(msg.to_string())
    }

    pub fn hotkey(msg: &str) -> (e: Self)
        ensures
            e matches JustTalkError::Hotkey(m) && m@ == msg@,
    {
        JustTalkError::Hotkey(msg.to_string())
    }

    /// The detail text that the error carries.
    pub fn into_detail(self) -> (s: String)
        ensures
            s@ == error_detail(self@),
    {
        match self {
            JustTalkError::AudioCapture(m) => m,
            JustTalkError::Transcription(m) => m,
            JustTalkError::Refinement(m) => m,
            JustTalkError::Output(m) => m,
            JustTalkError::Config(m) => m,
            JustTalkError::Hotkey(m) => m,
        }
    }

    /// The human-readable message: the variant's prefix followed by its detail.
    pub fn message(&self) -> (s: String)
        ensures
            s@ == error_message(self@),
    {
        let (prefix, detail) = match self {
            JustTalkError::AudioCapture(m) => ("Audio capture failed: ", m),
            JustTalkError::Transcription(m) => ("Transcription failed: ", m),
            JustTalkError::Refinement(m) => ("AI refinement failed: ", m),
            JustTalkError::Output(m) => ("Output failed: ", m),
            JustTalkError::Config(m) => ("Config error: ", m),
            JustTalkError::Hotkey(m) => ("Hotkey registration failed: ", m),
        };
        prefix.to_string().concat(detail.as_str())
    }
}

} // verus!
