//! Output routing: inject the text into the focused field, or write it to
//! the clipboard.
//!
//! Decision flow of a delivery:
//!   prefer_inject=false → clipboard
//!   prefer_inject=true →
//!     focused element is a text input → inject
//!       → if injection fails and clipboard_fallback=true → clipboard
//!     focused element is something else, or unknown → clipboard if
//!       clipboard_fallback, else the text is dropped
pub mod focus;
pub mod inject;

use vstd::prelude::*;

use crate::config::OutputConfig;
use focus::FocusedElement;

verus! {

/// The next thing a delivery does.
#[derive(Debug, Clone, Copy, PartialEq, Eq, Structural)]
pub enum OutputStep {
    /// Write the text to the system clipboard; its outcome is the delivery's.
    WriteClipboard,
    /// Type the text into the focused field, pausing this long between
    /// characters; report a failure with `after_failed_injection`.
    Inject { delay_ms: u64 },
    /// Deliver nothing; the delivery succeeds.
    Drop,
}

pub open spec fn first_step_of(config: OutputConfig, focused: FocusedElement) -> OutputStep {
    if !config.prefer_inject {
        OutputStep::WriteClipboard
    } else {
        match focused {
            FocusedElement::TextInput => OutputStep::Inject { delay_ms: config.inject_delay_ms },
            FocusedElement::Other | FocusedElement::Unknown => if config.clipboard_fallback {
                OutputStep::WriteClipboard
            } else {
                OutputStep::Drop
            },
        }
    }
}

pub open spec fn fallback_of(config: OutputConfig) -> OutputStep {
    if config.clipboard_fallback {
        OutputStep::WriteClipboard
    } else {
        OutputStep::Drop
    }
}

/// Delivers text according to the output config.
pub struct OutputManager {
    pub config: OutputConfig,
}

impl OutputManager {
    pub fn new(config: &OutputConfig) -> (r: Self)
        ensures
            r.config == *config,
    {
        OutputManager { config: *config }
    }

    /// The first step of a delivery, given what has the keyboard focus.
    pub fn first_step(&self, focused: FocusedElement) -> (r: OutputStep)
        ensures
            r == first_step_of(self.config, focused),
    {
        if !self.config.prefer_inject {
            return OutputStep::WriteClipboard;
        }
        match focused {
            FocusedElement::TextInput => OutputStep::Inject {
                delay_ms: self.config.inject_delay_ms,
            },
            FocusedElement::Other | FocusedElement::Unknown => if self.config.clipboard_fallback {
                OutputStep::WriteClipboard
            } else {
                OutputStep::Drop
            },
        }
    }

    /// The step after an injection failed.
    pub fn after_failed_injection(&self) -> (r: OutputStep)
        ensures
            r == fallback_of(self.config),
    {
        if self.config.clipboard_fallback {
            OutputStep::WriteClipboard
        } else {
            OutputStep::Drop
        }
    }
}

/// With the clipboard fallback on, no delivery drops the text: it is typed
/// or written to the clipboard, and a failed injection falls back to the
/// clipboard.
pub proof fn lemma_fallback_never_drops(config: OutputConfig, focused: FocusedElement)
    requires
        config.clipboard_fallback,
    ensures
        first_step_of(config, focused) != OutputStep::Drop,
        fallback_of(config) == OutputStep::WriteClipboard,
{
}

/// Injection is tried only when it is preferred, and only into a focused
/// element known to be a text field.
pub proof fn lemma_inject_only_when_preferred(config: OutputConfig, focused: FocusedElement)
    ensures
        first_step_of(config, focused) is Inject ==> config.prefer_inject && focused
            == FocusedElement::TextInput,
{
}

/// When injection is not preferred the text always goes to the clipboard,
/// whatever has the focus and whatever the fallback setting says.
pub proof fn lemma_clipboard_unless_inject_preferred(config: OutputConfig, focused: FocusedElement)
    requires
        !config.prefer_inject,
    ensures
        first_step_of(config, focused) == OutputStep::WriteClipboard,
{
}

/// A delivery drops the text only when injection is preferred, the focus is
/// not a text field, and the clipboard fallback is off; it types the text,
/// with the configured delay, exactly when injection is preferred and a text
/// field has the focus.
pub proof fn lemma_output_routes(config: OutputConfig, focused: FocusedElement)
    ensures
        first_step_of(config, focused) == OutputStep::Drop <==> (config.prefer_inject
            && focused != FocusedElement::TextInput && !config.clipboard_fallback),
        (first_step_of(config, focused) is Inject) <==> (config.prefer_inject && focused
            == FocusedElement::TextInput),
        first_step_of(config, focused) is Inject ==> first_step_of(config, focused)
            == (OutputStep::Inject { delay_ms: config.inject_delay_ms }),
        fallback_of(config) == OutputStep::Drop <==> !config.clipboard_fallback,
        fallback_of(config) == OutputStep::WriteClipboard <==> config.clipboard_fallback,
{
}

} // verus!
