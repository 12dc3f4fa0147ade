//! Whether the focused UI element is an editable text field.
//!
//! The platform accessibility probes (AXUIElement on macOS, UI Automation on
//! Windows, AT-SPI2 on Linux) are not wired in: every probe reports
//! `Unknown`, which routes delivery to the clipboard, the path that is
//! always safe.
use vstd::prelude::*;

verus! {

/// Result of querying the currently focused UI element.
#[derive(Debug, Clone, Copy, PartialEq, Eq, Structural)]
pub enum FocusedElement {
    /// An editable text field (input, textarea, contenteditable, ...)
    TextInput,
    /// Focused element exists but is not a text input
    Other,
    /// Accessibility query failed, unsupported platform, or permissions denied
    Unknown,
}

/// macOS probe (AXUIElement role of the focused element); not implemented.
pub fn probe_macos() -> (r: FocusedElement)
    ensures
        r == FocusedElement::Unknown,
{
    FocusedElement::Unknown
}

/// Windows probe (UI Automation control type); not implemented.
pub fn probe_windows() -> (r: FocusedElement)
    ensures
        r == FocusedElement::Unknown,
{
    FocusedElement::Unknown
}

/// Linux probe (AT-SPI2 role); not implemented.
pub fn probe_linux() -> (r: FocusedElement)
    ensures
        r == FocusedElement::Unknown,
{
    FocusedElement::Unknown
}

/// Return the type of the currently focused element. No platform probe is
/// implemented, so this is `Unknown` everywhere.
pub fn get_focused_element_type() -> (r: FocusedElement)
    ensures
        r == FocusedElement::Unknown,
{
    FocusedElement::Unknown
}

} // verus!
