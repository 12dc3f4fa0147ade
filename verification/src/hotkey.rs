//! Hotkey configuration parsing and detection.
//!
//! The library decides; the program around it listens. On Linux and Windows
//! the program feeds each keyboard event to a `HotkeyListener`; on macOS it
//! samples the key state every few milliseconds and feeds the samples to a
//! `TapPoller` built from a `PollPlan`.
use vstd::prelude::*;

use crate::config::{HotkeyConfig, HotkeyTrigger};
use crate::error::{ErrorView, JustTalkError};
use crate::text::str_eq;

verus! {

// ---------------------------------------------------------------------------
// Keys
// ---------------------------------------------------------------------------

/// A key of the keyboard, as far as hotkeys are concerned. Every key that a
/// hotkey cannot name is `Other`.
#[derive(Debug, Clone, Copy, PartialEq, Eq, Structural)]
pub enum Key {
    F1,
    F2,
    F3,
    F4,
    F5,
    F6,
    F7,
    F8,
    F9,
    F10,
    F11,
    F12,
    CapsLock,
    Space,
    Tab,
    Return,
    Escape,
    Backspace,
    Delete,
    Home,
    End,
    PageUp,
    PageDown,
    UpArrow,
    DownArrow,
    LeftArrow,
    RightArrow,
    MetaLeft,
    MetaRight,
    ControlLeft,
    ControlRight,
    ShiftLeft,
    ShiftRight,
    Alt,
    AltGr,
    KeyA,
    KeyB,
    KeyC,
    KeyD,
    KeyE,
    KeyF,
    KeyG,
    KeyH,
    KeyI,
    KeyJ,
    KeyK,
    KeyL,
    KeyM,
    KeyN,
    KeyO,
    KeyP,
    KeyQ,
    KeyR,
    KeyS,
    KeyT,
    KeyU,
    KeyV,
    KeyW,
    KeyX,
    KeyY,
    KeyZ,
    Num0,
    Num1,
    Num2,
    Num3,
    Num4,
    Num5,
    Num6,
    Num7,
    Num8,
    Num9,
    Other,
}

/// A keyboard event: a key went down, a key came up, or anything else
/// (mouse movement, wheel, ...).
#[derive(Debug, Clone, Copy, PartialEq, Eq, Structural)]
pub enum EventType {
    KeyPress(Key),
    KeyRelease(Key),
    Other,
}

// ---------------------------------------------------------------------------
// Key names
// ---------------------------------------------------------------------------

/// The keys named by a word (function keys, special keys, the Command /
/// Windows / Super keys).
pub open spec fn named_key(s: Seq<char>) -> Option<Key> {
    if s == "F1"@ {
        Some(Key::F1)
    } else if s == "F2"@ {
        Some(Key::F2)
    } else if s == "F3"@ {
        Some(Key::F3)
    } else if s == "F4"@ {
        Some(Key::F4)
    } else if s == "F5"@ {
        Some(Key::F5)
    } else if s == "F6"@ {
        Some(Key::F6)
    } else if s == "F7"@ {
        Some(Key::F7)
    } else if s == "F8"@ {
        Some(Key::F8)
    } else if s == "F9"@ {
        Some(Key::F9)
    } else if s == "F10"@ {
        Some(Key::F10)
    } else if s == "F11"@ {
        Some(Key::F11)
    } else if s == "F12"@ {
        Some(Key::F12)
    } else if s == "CapsLock"@ {
        Some(Key::CapsLock)
    } else if s == "Space"@ {
        Some(Key::Space)
    } else if s == "Tab"@ {
        Some(Key::Tab)
    } else if s == "Return"@ || s == "Enter"@ {
        Some(Key::Return)
    } else if s == "Escape"@ || s == "Esc"@ {
        Some(Key::Escape)
    } else if s == "Backspace"@ {
        Some(Key::Backspace)
    } else if s == "Delete"@ || s == "Del"@ {
        Some(Key::Delete)
    } else if s == "Home"@ {
        Some(Key::Home)
    } else if s == "End"@ {
        Some(Key::End)
    } else if s == "PageUp"@ {
        Some(Key::PageUp)
    } else if s == "PageDown"@ {
        Some(Key::PageDown)
    } else if s == "UpArrow"@ || s == "Up"@ {
        Some(Key::UpArrow)
    } else if s == "DownArrow"@ || s == "Down"@ {
        Some(Key::DownArrow)
    } else if s == "LeftArrow"@ || s == "Left"@ {
        Some(Key::LeftArrow)
    } else if s == "RightArrow"@ || s == "Right"@ {
        Some(Key::RightArrow)
    } else if s == "RightCmd"@ || s == "RightCommand"@ || s == "RightMeta"@ || s == "RightWin"@ || s == "RightSuper"@ {
        Some(Key::MetaRight)
    } else if s == "LeftCmd"@ || s == "LeftCommand"@ || s == "LeftMeta"@ || s == "LeftWin"@ || s == "LeftSuper"@ {
        Some(Key::MetaLeft)
    } else {
        None
    }
}

/// The keys named by a single letter (either case) or digit.
pub open spec fn char_key(c: char) -> Option<Key> {
    match c {
        'A' | 'a' => Some(Key::KeyA),
        'B' | 'b' => Some(Key::KeyB),
        'C' | 'c' => Some(Key::KeyC),
        'D' | 'd' => Some(Key::KeyD),
        'E' | 'e' => Some(Key::KeyE),
        'F' | 'f' => Some(Key::KeyF),
        'G' | 'g' => Some(Key::KeyG),
        'H' | 'h' => Some(Key::KeyH),
        'I' | 'i' => Some(Key::KeyI),
        'J' | 'j' => Some(Key::KeyJ),
        'K' | 'k' => Some(Key::KeyK),
        'L' | 'l' => Some(Key::KeyL),
        'M' | 'm' => Some(Key::KeyM),
        'N' | 'n' => Some(Key::KeyN),
        'O' | 'o' => Some(Key::KeyO),
        'P' | 'p' => Some(Key::KeyP),
        'Q' | 'q' => Some(Key::KeyQ),
        'R' | 'r' => Some(Key::KeyR),
        'S' | 's' => Some(Key::KeyS),
        'T' | 't' => Some(Key::KeyT),
        'U' | 'u' => Some(Key::KeyU),
        'V' | 'v' => Some(Key::KeyV),
        'W' | 'w' => Some(Key::KeyW),
        'X' | 'x' => Some(Key::KeyX),
        'Y' | 'y' => Some(Key::KeyY),
        'Z' | 'z' => Some(Key::KeyZ),
        '0' => Some(Key::Num0),
        '1' => Some(Key::Num1),
        '2' => Some(Key::Num2),
        '3' => Some(Key::Num3),
        '4' => Some(Key::Num4),
        '5' => Some(Key::Num5),
        '6' => Some(Key::Num6),
        '7' => Some(Key::Num7),
        '8' => Some(Key::Num8),
        '9' => Some(Key::Num9),
        _ => None,
    }
}

pub open spec fn unknown_key_message(s: Seq<char>) -> Seq<char> {
    "Unknown key: '"@ + s
        + "'. Supported: F1-F12, CapsLock, Space, Tab, Return, Escape, Backspace, Delete, Home, End, PageUp, PageDown, arrow keys, A-Z, 0-9"@
}

pub open spec fn unknown_char_message(s: Seq<char>) -> Seq<char> {
    "Unknown key character: '"@ + s + "'"@
}

/// A one-byte (ASCII) string, as opposed to any other string.
pub open spec fn is_single_ascii(s: Seq<char>) -> bool {
    s.len() == 1 && (s[0] as u32) < 128
}

/// The key a hotkey name denotes, or the message that rejects the name.
pub open spec fn key_of_name(s: Seq<char>) -> Result<Key, Seq<char>> {
    if named_key(s) is Some {
        Ok(named_key(s)->0)
    } else if is_single_ascii(s) {
        if char_key(s[0]) is Some {
            Ok(char_key(s[0])->0)
        } else {
            Err(unknown_char_message(s))
        }
    } else {
        Err(unknown_key_message(s))
    }
}

fn lookup_named_key(s: &str) -> (r: Option<Key>)
    ensures
        r == named_key(s@),
{
    if str_eq(s, "F1") {
        Some(Key::F1)
    } else if str_eq(s, "F2") {
        Some(Key::F2)
    } else if str_eq(s, "F3") {
        Some(Key::F3)
    } else if str_eq(s, "F4") {
        Some(Key::F4)
    } else if str_eq(s, "F5") {
        Some(Key::F5)
    } else if str_eq(s, "F6") {
        Some(Key::F6)
    } else if str_eq(s, "F7") {
        Some(Key::F7)
    } else if str_eq(s, "F8") {
        Some(Key::F8)
    } else if str_eq(s, "F9") {
        Some(Key::F9)
    } else if str_eq(s, "F10") {
        Some(Key::F10)
    } else if str_eq(s, "F11") {
        Some(Key::F11)
    } else if str_eq(s, "F12") {
        Some(Key::F12)
    } else if str_eq(s, "CapsLock") {
        Some(Key::CapsLock)
    } else if str_eq(s, "Space") {
        Some(Key::Space)
    } else if str_eq(s, "Tab") {
        Some(Key::Tab)
    } else if str_eq(s, "Return") || str_eq(s, "Enter") {
        Some(Key::Return)
    } else if str_eq(s, "Escape") || str_eq(s, "Esc") {
        Some(Key::Escape)
    } else if str_eq(s, "Backspace") {
        Some(Key::Backspace)
    } else if str_eq(s, "Delete") || str_eq(s, "Del") {
        Some(Key::Delete)
    } else if str_eq(s, "Home") {
        Some(Key::Home)
    } else if str_eq(s, "End") {
        Some(Key::End)
    } else if str_eq(s, "PageUp") {
        Some(Key::PageUp)
    } else if str_eq(s, "PageDown") {
        Some(Key::PageDown)
    } else if str_eq(s, "UpArrow") || str_eq(s, "Up") {
        Some(Key::UpArrow)
    } else if str_eq(s, "DownArrow") || str_eq(s, "Down") {
        Some(Key::DownArrow)
    } else if str_eq(s, "LeftArrow") || str_eq(s, "Left") {
        Some(Key::LeftArrow)
    } else if str_eq(s, "RightArrow") || str_eq(s, "Right") {
        Some(Key::RightArrow)
    } else if str_eq(s, "RightCmd") || str_eq(s, "RightCommand") || str_eq(s, "RightMeta") || str_eq(s, "RightWin") || str_eq(s, "RightSuper") {
        Some(Key::MetaRight)
    } else if str_eq(s, "LeftCmd") || str_eq(s, "LeftCommand") || str_eq(s, "LeftMeta") || str_eq(s, "LeftWin") || str_eq(s, "LeftSuper") {
        Some(Key::MetaLeft)
    } else {
        None
    }
}

fn lookup_char_key(c: char) -> (r: Option<Key>)
    ensures
        r == char_key(c),
{
    match c {
        'A' | 'a' => Some(Key::KeyA),
        'B' | 'b' => Some(Key::KeyB),
        'C' | 'c' => Some(Key::KeyC),
        'D' | 'd' => Some(Key::KeyD),
        'E' | 'e' => Some(Key::KeyE),
        'F' | 'f' => Some(Key::KeyF),
        'G' | 'g' => Some(Key::KeyG),
        'H' | 'h' => Some(Key::KeyH),
        'I' | 'i' => Some(Key::KeyI),
        'J' | 'j' => Some(Key::KeyJ),
        'K' | 'k' => Some(Key::KeyK),
        'L' | 'l' => Some(Key::KeyL),
        'M' | 'm' => Some(Key::KeyM),
        'N' | 'n' => Some(Key::KeyN),
        'O' | 'o' => Some(Key::KeyO),
        'P' | 'p' => Some(Key::KeyP),
        'Q' | 'q' => Some(Key::KeyQ),
        'R' | 'r' => Some(Key::KeyR),
        'S' | 's' => Some(Key::KeyS),
        'T' | 't' => Some(Key::KeyT),
        'U' | 'u' => Some(Key::KeyU),
        'V' | 'v' => Some(Key::KeyV),
        'W' | 'w' => Some(Key::KeyW),
        'X' | 'x' => Some(Key::KeyX),
        'Y' | 'y' => Some(Key::KeyY),
        'Z' | 'z' => Some(Key::KeyZ),
        '0' => Some(Key::Num0),
        '1' => Some(Key::Num1),
        '2' => Some(Key::Num2),
        '3' => Some(Key::Num3),
        '4' => Some(Key::Num4),
        '5' => Some(Key::Num5),
        '6' => Some(Key::Num6),
        '7' => Some(Key::Num7),
        '8' => Some(Key::Num8),
        '9' => Some(Key::Num9),
        _ => None,
    }
}

/// Parse a hotkey name: a function key (`F1`..`F12`), a special key
/// (`CapsLock`, `Space`, `Return`/`Enter`, arrows, ...), a Command/Windows
/// key (`RightCmd`, `LeftMeta`, ...), or a single letter (either case) or
/// digit.
pub fn parse_key(s: &str) -> (r: Result<Key, JustTalkError>)
    ensures
        match key_of_name(s@) {
            Ok(k) => r == Ok::<Key, JustTalkError>(k),
            Err(msg) => r matches Err(e) && e@ == ErrorView::Hotkey(msg),
        },
{
    if let Some(k) = lookup_named_key(s) {
        return Ok(k);
    }
    let n = s.unicode_len();
    if n == 1 {
        let c = s.get_char(0);
        if (c as u32) < 128 {
            return match lookup_char_key(c) {
                Some(k) => Ok(k),
                None => Err(
                    JustTalkError::Hotkey(
                        "Unknown key character: '".to_string().concat(s).concat("'"),
                    ),
                ),
            };
        }
    }
    Err(
        JustTalkError::Hotkey(
            "Unknown key: '".to_string().concat(s).concat(
                "'. Supported: F1-F12, CapsLock, Space, Tab, Return, Escape, Backspace, Delete, Home, End, PageUp, PageDown, arrow keys, A-Z, 0-9",
            ),
        ),
    )
}

// ---------------------------------------------------------------------------
// macOS virtual key codes
// ---------------------------------------------------------------------------

pub open spec fn vkcode_of(key: Key) -> Option<u16> {
    match key {
        Key::F1 => Some(0x7Au16),
        Key::F2 => Some(0x78u16),
        Key::F3 => Some(0x63u16),
        Key::F4 => Some(0x76u16),
        Key::F5 => Some(0x60u16),
        Key::F6 => Some(0x61u16),
        Key::F7 => Some(0x62u16),
        Key::F8 => Some(0x64u16),
        Key::F9 => Some(0x65u16),
        Key::F10 => Some(0x6Du16),
        Key::F11 => Some(0x67u16),
        Key::F12 => Some(0x6Fu16),
        Key::CapsLock => Some(0x39u16),
        Key::Space => Some(0x31u16),
        Key::Tab => Some(0x30u16),
        Key::Return => Some(0x24u16),
        Key::Escape => Some(0x35u16),
        Key::Backspace => Some(0x33u16),
        Key::Delete => Some(0x75u16),
        Key::Home => Some(0x73u16),
        Key::End => Some(0x77u16),
        Key::PageUp => Some(0x74u16),
        Key::PageDown => Some(0x79u16),
        Key::UpArrow => Some(0x7Eu16),
        Key::DownArrow => Some(0x7Du16),
        Key::LeftArrow => Some(0x7Bu16),
        Key::RightArrow => Some(0x7Cu16),
        Key::MetaLeft => Some(0x37u16),
        Key::MetaRight => Some(0x36u16),
        Key::ControlLeft => Some(0x3Bu16),
        Key::ControlRight => Some(0x3Eu16),
        Key::ShiftLeft => Some(0x38u16),
        Key::ShiftRight => Some(0x3Cu16),
        Key::Alt => Some(0x3Au16),
        Key::AltGr => Some(0x3Du16),
        Key::KeyA => Some(0x00u16),
        Key::KeyB => Some(0x0Bu16),
        Key::KeyC => Some(0x08u16),
        Key::KeyD => Some(0x02u16),
        Key::KeyE => Some(0x0Eu16),
        Key::KeyF => Some(0x03u16),
        Key::KeyG => Some(0x05u16),
        Key::KeyH => Some(0x04u16),
        Key::KeyI => Some(0x22u16),
        Key::KeyJ => Some(0x26u16),
        Key::KeyK => Some(0x28u16),
        Key::KeyL => Some(0x25u16),
        Key::KeyM => Some(0x2Eu16),
        Key::KeyN => Some(0x2Du16),
        Key::KeyO => Some(0x1Fu16),
        Key::KeyP => Some(0x23u16),
        Key::KeyQ => Some(0x0Cu16),
        Key::KeyR => Some(0x0Fu16),
        Key::KeyS => Some(0x01u16),
        Key::KeyT => Some(0x11u16),
        Key::KeyU => Some(0x20u16),
        Key::KeyV => Some(0x09u16),
        Key::KeyW => Some(0x0Du16),
        Key::KeyX => Some(0x07u16),
        Key::KeyY => Some(0x10u16),
        Key::KeyZ => Some(0x06u16),
        Key::Num0 => Some(0x1Du16),
        Key::Num1 => Some(0x12u16),
        Key::Num2 => Some(0x13u16),
        Key::Num3 => Some(0x14u16),
        Key::Num4 => Some(0x15u16),
        Key::Num5 => Some(0x17u16),
        Key::Num6 => Some(0x16u16),
        Key::Num7 => Some(0x1Au16),
        Key::Num8 => Some(0x1Cu16),
        Key::Num9 => Some(0x19u16),
        Key::Other => None,
    }
}

fn key_to_vkcode_impl(key: Key) -> (r: Option<u16>)
    ensures
        r == vkcode_of(key),
{
    match key {
        Key::F1 => Some(0x7Au16),
        Key::F2 => Some(0x78u16),
        Key::F3 => Some(0x63u16),
        Key::F4 => Some(0x76u16),
        Key::F5 => Some(0x60u16),
        Key::F6 => Some(0x61u16),
        Key::F7 => Some(0x62u16),
        Key::F8 => Some(0x64u16),
        Key::F9 => Some(0x65u16),
        Key::F10 => Some(0x6Du16),
        Key::F11 => Some(0x67u16),
        Key::F12 => Some(0x6Fu16),
        Key::CapsLock => Some(0x39u16),
        Key::Space => Some(0x31u16),
        Key::Tab => Some(0x30u16),
        Key::Return => Some(0x24u16),
        Key::Escape => Some(0x35u16),
        Key::Backspace => Some(0x33u16),
        Key::Delete => Some(0x75u16),
        Key::Home => Some(0x73u16),
        Key::End => Some(0x77u16),
        Key::PageUp => Some(0x74u16),
        Key::PageDown => Some(0x79u16),
        Key::UpArrow => Some(0x7Eu16),
        Key::DownArrow => Some(0x7Du16),
        Key::LeftArrow => Some(0x7Bu16),
        Key::RightArrow => Some(0x7Cu16),
        Key::MetaLeft => Some(0x37u16),
        Key::MetaRight => Some(0x36u16),
        Key::ControlLeft => Some(0x3Bu16),
        Key::ControlRight => Some(0x3Eu16),
        Key::ShiftLeft => Some(0x38u16),
        Key::ShiftRight => Some(0x3Cu16),
        Key::Alt => Some(0x3Au16),
        Key::AltGr => Some(0x3Du16),
        Key::KeyA => Some(0x00u16),
        Key::KeyB => Some(0x0Bu16),
        Key::KeyC => Some(0x08u16),
        Key::KeyD => Some(0x02u16),
        Key::KeyE => Some(0x0Eu16),
        Key::KeyF => Some(0x03u16),
        Key::KeyG => Some(0x05u16),
        Key::KeyH => Some(0x04u16),
        Key::KeyI => Some(0x22u16),
        Key::KeyJ => Some(0x26u16),
        Key::KeyK => Some(0x28u16),
        Key::KeyL => Some(0x25u16),
        Key::KeyM => Some(0x2Eu16),
        Key::KeyN => Some(0x2Du16),
        Key::KeyO => Some(0x1Fu16),
        Key::KeyP => Some(0x23u16),
        Key::KeyQ => Some(0x0Cu16),
        Key::KeyR => Some(0x0Fu16),
        Key::KeyS => Some(0x01u16),
        Key::KeyT => Some(0x11u16),
        Key::KeyU => Some(0x20u16),
        Key::KeyV => Some(0x09u16),
        Key::KeyW => Some(0x0Du16),
        Key::KeyX => Some(0x07u16),
        Key::KeyY => Some(0x10u16),
        Key::KeyZ => Some(0x06u16),
        Key::Num0 => Some(0x1Du16),
        Key::Num1 => Some(0x12u16),
        Key::Num2 => Some(0x13u16),
        Key::Num3 => Some(0x14u16),
        Key::Num4 => Some(0x15u16),
        Key::Num5 => Some(0x17u16),
        Key::Num6 => Some(0x16u16),
        Key::Num7 => Some(0x1Au16),
        Key::Num8 => Some(0x1Cu16),
        Key::Num9 => Some(0x19u16),
        Key::Other => None,
    }
}

/// The macOS virtual key code of a key, for polling its state.
pub fn key_to_vkcode(key: Key) -> (r: Option<u16>)
    ensures
        r == vkcode_of(key),
{
    key_to_vkcode_impl(key)
}

/// Every key that a hotkey can name has a macOS virtual key code.
pub proof fn lemma_named_keys_have_vkcodes(s: Seq<char>)
    requires
        key_of_name(s) is Ok,
    ensures
        vkcode_of(key_of_name(s)->Ok_0) is Some,
{
}

} // verus!

verus! {

// ---------------------------------------------------------------------------
// The set of keys held down
// ---------------------------------------------------------------------------

/// The keys currently held down.
pub struct PressedKeys {
    keys: Vec<Key>,
}

impl View for PressedKeys {
    type V = Set<Key>;

    closed spec fn view(&self) -> Set<Key> {
        Set::new(|k: Key| self.keys@.contains(k))
    }
}

impl PressedKeys {
    pub fn new() -> (r: Self)
        ensures
            r@ == Set::<Key>::empty(),
    {
        let r = PressedKeys { keys: Vec::new() };
        assert(r@ =~= Set::<Key>::empty());
        r
    }

    pub fn contains(&self, key: Key) -> (r: bool)
        ensures
            r == self@.contains(key),
    {
        let mut i: usize = 0;
        while i < self.keys.len()
            invariant
                i <= self.keys@.len(),
                forall|j: int| 0 <= j < i ==> self.keys@[j] != key,
            decreases self.keys@.len() - i,
        {
            if self.keys[i] == key {
                assert(self.keys@.contains(key));
                return true;
            }
            i = i + 1;
        }
        false
    }

    pub fn insert(&mut self, key: Key)
        ensures
            final(self)@ == old(self)@.insert(key),
    {
        if !self.contains(key) {
            self.keys.push(key);
        }
        assert forall|k: Key| final(self)@.contains(k) == old(self)@.insert(key).contains(k) by {
            if k == key {
                if !old(self)@.contains(key) {
                    assert(self.keys@[self.keys@.len() - 1] == key);
                }
            } else if old(self).keys@.contains(k) {
                let j = choose|j: int| 0 <= j < old(self).keys@.len() && old(self).keys@[j] == k;
                assert(self.keys@[j] == k);
            }
        }
        assert(final(self)@ =~= old(self)@.insert(key));
    }

    pub fn remove(&mut self, key: Key)
        ensures
            final(self)@ == old(self)@.remove(key),
    {
        let mut kept: Vec<Key> = Vec::new();
        let mut i: usize = 0;
        while i < self.keys.len()
            invariant
                i <= self.keys@.len(),
                forall|k: Key|
                    kept@.contains(k) <==> (k != key && exists|j: int|
                        0 <= j < i && #[trigger] self.keys@[j] == k),
            decreases self.keys@.len() - i,
        {
            let k = self.keys[i];
            let ghost old_kept = kept@;
            if k != key {
                kept.push(k);
            }
            proof {
                assert forall|x: Key|
                    kept@.contains(x) <==> (x != key && exists|j: int|
                        0 <= j < i + 1 && #[trigger] self.keys@[j] == x) by {
                    if kept@.contains(x) {
                        if x == k {
                            assert(self.keys@[i as int] == x);
                        } else {
                            let j = choose|j: int| 0 <= j < kept@.len() && kept@[j] == x;
                            assert(old_kept[j] == x);
                            assert(old_kept.contains(x));
                        }
                    }
                    if x != key && (exists|j: int| 0 <= j < i + 1 && #[trigger] self.keys@[j] == x) {
                        if x == k {
                            assert(kept@[kept@.len() - 1] == x);
                        } else {
                            let j = choose|j: int| 0 <= j < i + 1 && #[trigger] self.keys@[j] == x;
                            assert(j < i);
                            assert(old_kept.contains(x));
                            let jj = choose|jj: int| 0 <= jj < old_kept.len() && old_kept[jj] == x;
                            assert(kept@[jj] == x);
                        }
                    }
                }
            }
            i = i + 1;
        }
        let ghost old_keys = self.keys@;
        self.keys = kept;
        assert forall|k: Key| final(self)@.contains(k) == old(self)@.remove(key).contains(k) by {
            if old_keys.contains(k) {
                let j = choose|j: int| 0 <= j < old_keys.len() && old_keys[j] == k;
                assert(old_keys[j] == k);
            }
        }
        assert(final(self)@ =~= old(self)@.remove(key));
    }
}

// ---------------------------------------------------------------------------
// Modifiers
// ---------------------------------------------------------------------------

/// A logical modifier: either key of a left/right pair counts as held.
#[derive(Debug, Clone, Copy, PartialEq, Eq, Structural)]
pub enum ModifierGroup {
    Ctrl,
    Shift,
    Alt,
    Meta,
    MetaRight,
}

pub open spec fn modifier_active(m: ModifierGroup, pressed: Set<Key>) -> bool {
    match m {
        ModifierGroup::Ctrl => pressed.contains(Key::ControlLeft) || pressed.contains(
            Key::ControlRight,
        ),
        ModifierGroup::Shift => pressed.contains(Key::ShiftLeft) || pressed.contains(
            Key::ShiftRight,
        ),
        ModifierGroup::Alt => pressed.contains(Key::Alt) || pressed.contains(Key::AltGr),
        ModifierGroup::Meta => pressed.contains(Key::MetaLeft) || pressed.contains(Key::MetaRight),
        ModifierGroup::MetaRight => pressed.contains(Key::MetaRight),
    }
}

/// The modifier that a lowercased name denotes.
pub open spec fn modifier_named(s: Seq<char>) -> Option<ModifierGroup> {
    if s == "ctrl"@ || s == "control"@ {
        Some(ModifierGroup::Ctrl)
    } else if s == "shift"@ {
        Some(ModifierGroup::Shift)
    } else if s == "alt"@ || s == "option"@ || s == "opt"@ {
        Some(ModifierGroup::Alt)
    } else if s == "meta"@ || s == "cmd"@ || s == "command"@ || s == "win"@ || s == "super"@ {
        Some(ModifierGroup::Meta)
    } else if s == "metacright"@ || s == "rightcmd"@ || s == "rcmd"@ || s == "rightcommand"@
        || s == "cmdright"@ {
        Some(ModifierGroup::MetaRight)
    } else {
        None
    }
}

/// The Unicode lowercase mapping of std (`str::to_lowercase`).
pub uninterp spec fn lowercase(s: Seq<char>) -> Seq<char>;

/// Every character is ASCII.
pub open spec fn all_ascii(s: Seq<char>) -> bool {
    forall|i: int| 0 <= i < s.len() ==> (#[trigger] s[i] as u32) < 128
}

/// ASCII lowercasing: `A`..`Z` become `a`..`z`, every other character stays.
pub open spec fn ascii_lower(s: Seq<char>) -> Seq<char> {
    s.map_values(
        |c: char|
            if 'A' <= c && c <= 'Z' {
                ((c as u32) + 32) as char
            } else {
                c
            },
    )
}

/// `str::to_lowercase` of std: the string mapped to lowercase by the Unicode
/// rules. Its result is named, not described: it is a function of the
/// characters alone. On ASCII text (where the Unicode mapping is the ASCII
/// one, as std documents) it is stated: `A`..`Z` become `a`..`z`.
#[verifier::external_body]
fn to_lowercase(s: &str) -> (r: String)
    ensures
        r@ == lowercase(s@),
        all_ascii(s@) ==> r@ == ascii_lower(s@),
{
    s.to_lowercase()
}

pub open spec fn modifier_of_name(s: Seq<char>) -> Result<ModifierGroup, Seq<char>> {
    match modifier_named(lowercase(s)) {
        Some(m) => Ok(m),
        None => Err("Unknown modifier: '"@ + lowercase(s) + "'"@),
    }
}

/// The modifier that an already lowercased name denotes, or the error that
/// names it.
pub fn modifier_from_lowercase(l: &str) -> (r: Result<ModifierGroup, JustTalkError>)
    ensures
        match modifier_named(l@) {
            Some(m) => r == Ok::<ModifierGroup, JustTalkError>(m),
            None => r matches Err(e) && e@ == ErrorView::Hotkey("Unknown modifier: '"@ + l@ + "'"@),
        },
{
    if str_eq(l, "ctrl") || str_eq(l, "control") {
        Ok(ModifierGroup::Ctrl)
    } else if str_eq(l, "shift") {
        Ok(ModifierGroup::Shift)
    } else if str_eq(l, "alt") || str_eq(l, "option") || str_eq(l, "opt") {
        Ok(ModifierGroup::Alt)
    } else if str_eq(l, "meta") || str_eq(l, "cmd") || str_eq(l, "command") || str_eq(l, "win")
        || str_eq(l, "super") {
        Ok(ModifierGroup::Meta)
    } else if str_eq(l, "metacright") || str_eq(l, "rightcmd") || str_eq(l, "rcmd") || str_eq(
        l,
        "rightcommand",
    ) || str_eq(l, "cmdright") {
        Ok(ModifierGroup::MetaRight)
    } else {
        Err(JustTalkError::Hotkey("Unknown modifier: '".to_string().concat(l).concat("'")))
    }
}

pub open spec fn modifier_vkcodes(m: ModifierGroup) -> Seq<u16> {
    match m {
        ModifierGroup::Ctrl => seq![0x3Bu16, 0x3Eu16],
        ModifierGroup::Shift => seq![0x38u16, 0x3Cu16],
        ModifierGroup::Alt => seq![0x3Au16, 0x3Du16],
        ModifierGroup::Meta => seq![0x37u16, 0x36u16],
        ModifierGroup::MetaRight => seq![0x36u16],
    }
}

impl ModifierGroup {
    pub fn is_active(&self, pressed: &PressedKeys) -> (r: bool)
        ensures
            r == modifier_active(*self, pressed@),
    {
        match self {
            ModifierGroup::Ctrl => pressed.contains(Key::ControlLeft) || pressed.contains(
                Key::ControlRight,
            ),
            ModifierGroup::Shift => pressed.contains(Key::ShiftLeft) || pressed.contains(
                Key::ShiftRight,
            ),
            ModifierGroup::Alt => pressed.contains(Key::Alt) || pressed.contains(Key::AltGr),
            ModifierGroup::Meta => pressed.contains(Key::MetaLeft) || pressed.contains(
                Key::MetaRight,
            ),
            ModifierGroup::MetaRight => pressed.contains(Key::MetaRight),
        }
    }

    /// Parse a modifier name, case-insensitively: `ctrl`/`control`, `shift`,
    /// `alt`/`option`/`opt`, `meta`/`cmd`/`command`/`win`/`super`, or the right
    /// Command key alone (`rightcmd`, `rcmd`, ...).
    pub fn from_str(s: &str) -> (r: Result<ModifierGroup, JustTalkError>)
        ensures
            match modifier_of_name(s@) {
                Ok(m) => r == Ok::<ModifierGroup, JustTalkError>(m),
                Err(msg) => r matches Err(e) && e@ == ErrorView::Hotkey(msg),
            },
            all_ascii(s@) ==> match modifier_named(ascii_lower(s@)) {
                Some(m) => r == Ok::<ModifierGroup, JustTalkError>(m),
                None => r matches Err(e) && e@ == ErrorView::Hotkey(
                    "Unknown modifier: '"@ + ascii_lower(s@) + "'"@,
                ),
            },
    {
        let lower = to_lowercase(s);
        modifier_from_lowercase(lower.as_str())
    }

    /// The macOS virtual key codes of the keys in this group.
    pub fn vkcodes(&self) -> (r: Vec<u16>)
        ensures
            r@ == modifier_vkcodes(*self),
    {
        let r = match self {
            ModifierGroup::Ctrl => vec![0x3Bu16, 0x3Eu16],
            ModifierGroup::Shift => vec![0x38u16, 0x3Cu16],
            ModifierGroup::Alt => vec![0x3Au16, 0x3Du16],
            ModifierGroup::Meta => vec![0x37u16, 0x36u16],
            ModifierGroup::MetaRight => vec![0x36u16],
        };
        assert(r@ =~= modifier_vkcodes(*self));
        r
    }
}

// ---------------------------------------------------------------------------
// Event processing
// ---------------------------------------------------------------------------

pub open spec fn all_active(mods: Seq<ModifierGroup>, pressed: Set<Key>) -> bool {
    forall|i: int| 0 <= i < mods.len() ==> modifier_active(#[trigger] mods[i], pressed)
}

/// The keys held after an event.
pub open spec fn pressed_after(event: EventType, pressed: Set<Key>) -> Set<Key> {
    match event {
        EventType::KeyPress(k) => pressed.insert(k),
        EventType::KeyRelease(k) => pressed.remove(k),
        EventType::Other => pressed,
    }
}

/// Whether an event fires the hotkey: the target key goes down while every
/// required modifier is held.
pub open spec fn fires(
    event: EventType,
    target: Key,
    mods: Seq<ModifierGroup>,
    pressed: Set<Key>,
) -> bool {
    match event {
        EventType::KeyPress(k) => k == target && all_active(mods, pressed.insert(k)),
        _ => false,
    }
}

/// Whether every modifier of `mods` is held.
fn all_held(mods: &[ModifierGroup], pressed: &PressedKeys) -> (r: bool)
    ensures
        r == all_active(mods@, pressed@),
{
    let mut i: usize = 0;
    while i < mods.len()
        invariant
            i <= mods@.len(),
            forall|j: int| 0 <= j < i ==> modifier_active(#[trigger] mods@[j], pressed@),
        decreases mods@.len() - i,
    {
        if !mods[i].is_active(pressed) {
            return false;
        }
        i = i + 1;
    }
    true
}

/// Update `pressed` and return `true` if this event triggers the hotkey.
pub fn process_event(
    event_type: &EventType,
    target_key: Key,
    required_modifiers: &[ModifierGroup],
    pressed: &mut PressedKeys,
) -> (r: bool)
    ensures
        final(pressed)@ == pressed_after(*event_type, old(pressed)@),
        r == fires(*event_type, target_key, required_modifiers@, old(pressed)@),
{
    match event_type {
        EventType::KeyPress(key) => {
            pressed.insert(*key);
            *key == target_key && all_held(required_modifiers, pressed)
        },
        EventType::KeyRelease(key) => {
            pressed.remove(*key);
            false
        },
        EventType::Other => false,
    }
}

} // verus!

verus! {

// ---------------------------------------------------------------------------
// Hotkey configuration
// ---------------------------------------------------------------------------

pub open spec fn names_view(names: Seq<String>) -> Seq<Seq<char>> {
    names.map_values(|s: String| s@)
}

/// The modifiers that a list of names denotes, or the message that rejects
/// the first unknown name.
pub open spec fn modifiers_of(names: Seq<Seq<char>>) -> Result<Seq<ModifierGroup>, Seq<char>>
    decreases names.len(),
{
    if names.len() == 0 {
        Ok(Seq::<ModifierGroup>::empty())
    } else {
        match modifiers_of(names.drop_last()) {
            Err(m) => Err(m),
            Ok(prefix) => match modifier_of_name(names.last()) {
                Ok(g) => Ok(prefix.push(g)),
                Err(m) => Err(m),
            },
        }
    }
}

/// Once a prefix of the names is rejected, the whole list is rejected with
/// the same message.
proof fn lemma_modifiers_err_extends(names: Seq<Seq<char>>, i: int)
    requires
        0 <= i <= names.len(),
        modifiers_of(names.take(i)) is Err,
    ensures
        modifiers_of(names) == modifiers_of(names.take(i)),
    decreases names.len() - i,
{
    if i < names.len() {
        assert(names.take(i + 1).drop_last() =~= names.take(i));
        assert(modifiers_of(names.take(i + 1)) == modifiers_of(names.take(i)));
        lemma_modifiers_err_extends(names, i + 1);
    } else {
        assert(names.take(i) =~= names);
    }
}

/// The double-tap window that a config asks for, if it asks for double taps.
pub open spec fn double_tap_of(c: HotkeyConfig) -> Option<u64> {
    if c.trigger == HotkeyTrigger::DoubleTap {
        Some(c.double_tap_ms)
    } else {
        None
    }
}

/// The target key, the required modifiers and the double-tap window of a
/// hotkey config, or the message that rejects it.
pub open spec fn hotkey_setup(c: HotkeyConfig) -> Result<
    (Key, Seq<ModifierGroup>, Option<u64>),
    Seq<char>,
> {
    match key_of_name(c.key@) {
        Err(m) => Err("Invalid hotkey key '"@ + c.key@ + "': "@ + m),
        Ok(k) => match modifiers_of(names_view(c.modifiers@)) {
            Err(m) => Err(m),
            Ok(mods) => Ok((k, mods, double_tap_of(c))),
        },
    }
}

/// Parse a hotkey config into its target key, the modifiers that must be
/// held, and the double-tap window (in double-tap mode only).
pub fn parse_config(config: &HotkeyConfig) -> (r: Result<
    (Key, Vec<ModifierGroup>, Option<u64>),
    JustTalkError,
>)
    ensures
        match hotkey_setup(*config) {
            Ok((k, mods, dt)) => r matches Ok((rk, rmods, rdt)) && rk == k && rmods@ == mods && rdt
                == dt,
            Err(msg) => r matches Err(e) && e@ == ErrorView::Hotkey(msg),
        },
{
    let target_key = match parse_key(config.key.as_str()) {
        Ok(k) => k,
        Err(e) => {
            let detail = e.into_detail();
            return Err(
                JustTalkError::Hotkey(
                    "Invalid hotkey key '".to_string().concat(config.key.as_str()).concat(
                        "': ",
                    ).concat(detail.as_str()),
                ),
            );
        },
    };
    let ghost names = names_view(config.modifiers@);
    let mut mods: Vec<ModifierGroup> = Vec::new();
    let mut i: usize = 0;
    while i < config.modifiers.len()
        invariant
            i <= config.modifiers@.len(),
            names == names_view(config.modifiers@),
            key_of_name(config.key@) == Ok::<Key, Seq<char>>(target_key),
            modifiers_of(names.take(i as int)) == Ok::<Seq<ModifierGroup>, Seq<char>>(mods@),
        decreases config.modifiers@.len() - i,
    {
        proof {
            assert(names.take(i + 1).drop_last() =~= names.take(i as int));
            assert(names.take(i + 1).last() == config.modifiers@[i as int]@);
        }
        match ModifierGroup::from_str(config.modifiers[i].as_str()) {
            Ok(g) => {
                mods.push(g);
            },
            Err(e) => {
                proof {
                    let msg = modifier_of_name(config.modifiers@[i as int]@)->Err_0;
                    assert(modifiers_of(names.take(i + 1)) == Err::<Seq<ModifierGroup>, Seq<char>>(msg));
                    lemma_modifiers_err_extends(names, i + 1);
                    assert(modifiers_of(names) == Err::<Seq<ModifierGroup>, Seq<char>>(msg));
                    assert(key_of_name(config.key@) == Ok::<Key, Seq<char>>(target_key));
                    assert(hotkey_setup(*config) == Err::<(Key, Seq<ModifierGroup>, Option<u64>), Seq<char>>(msg));
                }
                return Err(e);
            },
        }
        i = i + 1;
    }
    proof {
        assert(names.take(i as int) =~= names);
    }
    let double_tap_ms = if config.trigger == HotkeyTrigger::DoubleTap {
        Some(config.double_tap_ms)
    } else {
        None
    };
    Ok((target_key, mods, double_tap_ms))
}

// ---------------------------------------------------------------------------
// Double-tap timing
// ---------------------------------------------------------------------------

/// Milliseconds from `then` to `now`; zero if the clock reads earlier.
pub open spec fn elapsed(then: u64, now: u64) -> int {
    if now >= then {
        now - then
    } else {
        0
    }
}

/// A release was seen less than `window` milliseconds before `now`.
pub open spec fn within(last_release: Option<u64>, now: u64, window: u64) -> bool {
    last_release matches Some(t) && elapsed(t, now) < window
}

fn released_within(last_release: Option<u64>, now: u64, window: u64) -> (r: bool)
    ensures
        r == within(last_release, now, window),
{
    match last_release {
        Some(t) => {
            let e = if now >= t {
                now - t
            } else {
                0
            };
            e < window
        },
        None => false,
    }
}

// ---------------------------------------------------------------------------
// Event-driven detection (Linux / Windows)
// ---------------------------------------------------------------------------

pub struct ListenerView {
    pub target: Key,
    pub modifiers: Seq<ModifierGroup>,
    pub double_tap_ms: Option<u64>,
    pub pressed: Set<Key>,
    pub last_release_ms: Option<u64>,
}

/// What the listener does on an event at time `now`: its next state, and
/// whether the hotkey fires. Without a double-tap window every press of the
/// target (with its modifiers held) fires; with one, a release of the target
/// is remembered and the next such press fires only if it comes within the
/// window.
pub open spec fn listen_step(v: ListenerView, event: EventType, now: u64) -> (ListenerView, bool) {
    let single = fires(event, v.target, v.modifiers, v.pressed);
    let v1 = ListenerView { pressed: pressed_after(event, v.pressed), ..v };
    match v.double_tap_ms {
        None => (v1, single),
        Some(window) => if event == EventType::KeyRelease(v.target) {
            (ListenerView { last_release_ms: Some(now), ..v1 }, false)
        } else if single {
            (ListenerView { last_release_ms: None, ..v1 }, within(v.last_release_ms, now, window))
        } else {
            (v1, false)
        },
    }
}

/// Detects the hotkey in a stream of keyboard events.
pub struct HotkeyListener {
    target: Key,
    modifiers: Vec<ModifierGroup>,
    double_tap_ms: Option<u64>,
    pressed: PressedKeys,
    last_release_ms: Option<u64>,
}

impl View for HotkeyListener {
    type V = ListenerView;

    closed spec fn view(&self) -> ListenerView {
        ListenerView {
            target: self.target,
            modifiers: self.modifiers@,
            double_tap_ms: self.double_tap_ms,
            pressed: self.pressed@,
            last_release_ms: self.last_release_ms,
        }
    }
}

impl HotkeyListener {
    pub fn new(target: Key, modifiers: Vec<ModifierGroup>, double_tap_ms: Option<u64>) -> (r: Self)
        ensures
            r@ == (ListenerView {
                target,
                modifiers: modifiers@,
                double_tap_ms,
                pressed: Set::empty(),
                last_release_ms: None,
            }),
    {
        HotkeyListener {
            target,
            modifiers,
            double_tap_ms,
            pressed: PressedKeys::new(),
            last_release_ms: None,
        }
    }

    /// Feed one event, seen at `now_ms` on a monotonic clock; returns whether
    /// the hotkey fires.
    pub fn on_event(&mut self, event: &EventType, now_ms: u64) -> (r: bool)
        ensures
            (final(self)@, r) == listen_step(old(self)@, *event, now_ms),
    {
        let single = process_event(event, self.target, self.modifiers.as_slice(), &mut self.pressed);
        match self.double_tap_ms {
            None => single,
            Some(window) => {
                if *event == EventType::KeyRelease(self.target) {
                    self.last_release_ms = Some(now_ms);
                    false
                } else if single {
                    let is_double = released_within(self.last_release_ms, now_ms, window);
                    self.last_release_ms = None;
                    is_double
                } else {
                    false
                }
            },
        }
    }
}

// ---------------------------------------------------------------------------
// Polled detection (macOS)
// ---------------------------------------------------------------------------

pub struct PollerView {
    pub was_pressed: bool,
    pub last_release_ms: Option<u64>,
    pub double_tap_ms: Option<u64>,
}

/// What the poller does on a sample of the key state at time `now`: it fires
/// on a rising edge (in double-tap mode only if the last falling edge came
/// within the window, which it then forgets), and in double-tap mode
/// remembers the time of each falling edge.
pub open spec fn poll_step(v: PollerView, now_pressed: bool, now: u64) -> (PollerView, bool) {
    if now_pressed && !v.was_pressed {
        let fire = match v.double_tap_ms {
            Some(window) => within(v.last_release_ms, now, window),
            None => true,
        };
        (
            PollerView {
                was_pressed: true,
                last_release_ms: if fire {
                    None
                } else {
                    v.last_release_ms
                },
                ..v
            },
            fire,
        )
    } else if !now_pressed && v.was_pressed {
        (
            PollerView {
                was_pressed: false,
                last_release_ms: if v.double_tap_ms is Some {
                    Some(now)
                } else {
                    v.last_release_ms
                },
                ..v
            },
            false,
        )
    } else {
        (PollerView { was_pressed: now_pressed, ..v }, false)
    }
}

/// Detects the hotkey from periodic samples of whether it is held.
pub struct TapPoller {
    was_pressed: bool,
    last_release_ms: Option<u64>,
    double_tap_ms: Option<u64>,
}

impl View for TapPoller {
    type V = PollerView;

    closed spec fn view(&self) -> PollerView {
        PollerView {
            was_pressed: self.was_pressed,
            last_release_ms: self.last_release_ms,
            double_tap_ms: self.double_tap_ms,
        }
    }
}

impl TapPoller {
    pub fn new(double_tap_ms: Option<u64>) -> (r: Self)
        ensures
            r@ == (PollerView { was_pressed: false, last_release_ms: None, double_tap_ms }),
    {
        TapPoller { was_pressed: false, last_release_ms: None, double_tap_ms }
    }

    /// Feed one sample: whether the hotkey (with its modifiers) is held at
    /// `now_ms` on a monotonic clock; returns whether the hotkey fires.
    pub fn on_sample(&mut self, now_pressed: bool, now_ms: u64) -> (r: bool)
        ensures
            (final(self)@, r) == poll_step(old(self)@, now_pressed, now_ms),
    {
        let mut fire = false;
        if now_pressed && !self.was_pressed {
            fire = match self.double_tap_ms {
                Some(window) => released_within(self.last_release_ms, now_ms, window),
                None => true,
            };
            if fire {
                self.last_release_ms = None;
            }
        } else if !now_pressed && self.was_pressed {
            if self.double_tap_ms.is_some() {
                self.last_release_ms = Some(now_ms);
            }
        }
        self.was_pressed = now_pressed;
        fire
    }
}

// ---------------------------------------------------------------------------
// Setting up a listener
// ---------------------------------------------------------------------------

/// The device bit of the right Command key in the event-source flags.
pub const NX_DEVICERCMDKEYMASK: u64 = 0x10;

/// The device bit of the left Command key in the event-source flags.
pub const NX_DEVICELCMDKEYMASK: u64 = 0x08;

/// The device-flag bit that also reports a Command key, which some macOS
/// versions report only there.
pub open spec fn nx_flag_of(vkcode: u16) -> Option<u64> {
    if vkcode == 0x36 {
        Some(NX_DEVICERCMDKEYMASK)
    } else if vkcode == 0x37 {
        Some(NX_DEVICELCMDKEYMASK)
    } else {
        None
    }
}

/// Whether a sample shows the hotkey held: every required modifier group has
/// a key down (`mods_held`, one entry per group), and the target key is down
/// by either key-state probe (`key_states`: the combined session and the HID
/// system state) or, for a key with a device flag, by that flag's bit in
/// either flags word (`flags`, same two states).
pub open spec fn sample_shows_pressed(
    mods_held: Seq<bool>,
    key_states: (bool, bool),
    flags: (u64, u64),
    nx_flag: Option<u64>,
) -> bool {
    &&& forall|i: int| 0 <= i < mods_held.len() ==> #[trigger] mods_held[i]
    &&& (key_states.0 || key_states.1 || match nx_flag {
        Some(mask) => (flags.0 & mask) != 0 || (flags.1 & mask) != 0,
        None => false,
    })
}

pub fn sample_pressed(
    mods_held: &[bool],
    key_states: (bool, bool),
    flags: (u64, u64),
    nx_flag: Option<u64>,
) -> (r: bool)
    ensures
        r == sample_shows_pressed(mods_held@, key_states, flags, nx_flag),
{
    let mut i: usize = 0;
    while i < mods_held.len()
        invariant
            i <= mods_held@.len(),
            forall|j: int| 0 <= j < i ==> #[trigger] mods_held@[j],
        decreases mods_held@.len() - i,
    {
        if !mods_held[i] {
            return false;
        }
        i = i + 1;
    }
    let by_flag = match nx_flag {
        Some(mask) => (flags.0 & mask) != 0 || (flags.1 & mask) != 0,
        None => false,
    };
    key_states.0 || key_states.1 || by_flag
}

/// What the macOS poller samples: the target key's code (and device flag),
/// the key codes of each required modifier, and the double-tap window.
pub struct PollPlan {
    pub target_vkcode: u16,
    pub target_nx_flag: Option<u64>,
    pub mod_codes: Vec<Vec<u16>>,
    pub double_tap_ms: Option<u64>,
}

pub open spec fn codes_view(codes: Seq<Vec<u16>>) -> Seq<Seq<u16>> {
    codes.map_values(|v: Vec<u16>| v@)
}

/// The hotkey registration: parses the config into what a listener needs.
pub struct HotkeyManager;

impl HotkeyManager {
    /// The event listener for a hotkey config (Linux / Windows).
    pub fn listener(config: &HotkeyConfig) -> (r: Result<HotkeyListener, JustTalkError>)
        ensures
            match hotkey_setup(*config) {
                Ok((k, mods, dt)) => r matches Ok(l) && l@ == (ListenerView {
                    target: k,
                    modifiers: mods,
                    double_tap_ms: dt,
                    pressed: Set::empty(),
                    last_release_ms: None,
                }),
                Err(msg) => r matches Err(e) && e@ == ErrorView::Hotkey(msg),
            },
    {
        let (target, mods, double_tap_ms) = parse_config(config)?;
        Ok(HotkeyListener::new(target, mods, double_tap_ms))
    }

    /// The polling plan for a hotkey config (macOS).
    pub fn poll_plan(config: &HotkeyConfig) -> (r: Result<PollPlan, JustTalkError>)
        ensures
            match hotkey_setup(*config) {
                Ok((k, mods, dt)) => r matches Ok(p) && vkcode_of(k) == Some(p.target_vkcode)
                    && p.target_nx_flag == nx_flag_of(p.target_vkcode) && codes_view(p.mod_codes@)
                    == mods.map_values(|m: ModifierGroup| modifier_vkcodes(m)) && p.double_tap_ms
                    == dt,
                Err(msg) => r matches Err(e) && e@ == ErrorView::Hotkey(msg),
            },
    {
        let (target, mods, double_tap_ms) = parse_config(config)?;
        let target_vkcode = match key_to_vkcode(target) {
            Some(v) => v,
            None => {
                proof {
                    lemma_named_keys_have_vkcodes(config.key@);
                }
                0
            },
        };
        let target_nx_flag = if target_vkcode == 0x36 {
            Some(NX_DEVICERCMDKEYMASK)
        } else if target_vkcode == 0x37 {
            Some(NX_DEVICELCMDKEYMASK)
        } else {
            None
        };
        let mut mod_codes: Vec<Vec<u16>> = Vec::new();
        let mut i: usize = 0;
        while i < mods.len()
            invariant
                i <= mods@.len(),
                codes_view(mod_codes@) =~= mods@.take(i as int).map_values(
                    |m: ModifierGroup| modifier_vkcodes(m),
                ),
            decreases mods@.len() - i,
        {
            let ghost before = mod_codes@;
            let codes = mods[i].vkcodes();
            mod_codes.push(codes);
            proof {
                assert(codes_view(mod_codes@) =~= codes_view(before).push(
                    modifier_vkcodes(mods@[i as int]),
                ));
                assert(mods@.take(i + 1) =~= mods@.take(i as int).push(mods@[i as int]));
            }
            i = i + 1;
        }
        proof {
            assert(mods@.take(mods@.len() as int) =~= mods@);
        }
        Ok(PollPlan { target_vkcode, target_nx_flag, mod_codes, double_tap_ms })
    }
}

} // verus!

verus! {

// ---------------------------------------------------------------------------
// Laws
// ---------------------------------------------------------------------------

/// Pressing a key and releasing it again leaves the held set as it was,
/// less that key.
pub proof fn lemma_press_then_release(pressed: Set<Key>, k: Key)
    ensures
        pressed_after(EventType::KeyRelease(k), pressed_after(EventType::KeyPress(k), pressed))
            == pressed.remove(k),
{
    assert(pressed.insert(k).remove(k) =~= pressed.remove(k));
}

/// Without a double-tap window the listener fires exactly when the event
/// fires the hotkey: the target goes down with every modifier held.
pub proof fn lemma_listener_single_mode(v: ListenerView, event: EventType, now: u64)
    requires
        v.double_tap_ms is None,
    ensures
        listen_step(v, event, now).1 == fires(event, v.target, v.modifiers, v.pressed),
        listen_step(v, event, now).0.pressed == pressed_after(event, v.pressed),
{
}

/// In double-tap mode the listener fires only on a press of the target with
/// its modifiers held, coming less than the window after a release of the
/// target; and a firing press is not remembered as the first of a new pair.
pub proof fn lemma_listener_double_tap_needs_recent_release(
    v: ListenerView,
    event: EventType,
    now: u64,
)
    requires
        v.double_tap_ms is Some,
        listen_step(v, event, now).1,
    ensures
        event == EventType::KeyPress(v.target),
        fires(event, v.target, v.modifiers, v.pressed),
        within(v.last_release_ms, now, v.double_tap_ms->0),
        listen_step(v, event, now).0.last_release_ms is None,
{
}

/// In double-tap mode, a tap of the target followed by a second press less
/// than the window after the release fires on the second press (and not on
/// the first, when no earlier release is remembered).
pub proof fn lemma_listener_double_tap_fires(
    v: ListenerView,
    t0: u64,
    t1: u64,
    t2: u64,
)
    requires
        v.double_tap_ms is Some,
        v.last_release_ms is None,
        all_active(v.modifiers, v.pressed.insert(v.target)),
        all_active(v.modifiers, v.pressed.insert(v.target).remove(v.target).insert(v.target)),
        t1 <= t2,
        t2 - t1 < v.double_tap_ms->0,
    ensures
        ({
            let (v1, f1) = listen_step(v, EventType::KeyPress(v.target), t0);
            let (v2, f2) = listen_step(v1, EventType::KeyRelease(v.target), t1);
            let (v3, f3) = listen_step(v2, EventType::KeyPress(v.target), t2);
            !f1 && !f2 && f3
        }),
{
}

/// Without a double-tap window the poller fires exactly on rising edges.
pub proof fn lemma_poller_single_mode(v: PollerView, now_pressed: bool, now: u64)
    requires
        v.double_tap_ms is None,
    ensures
        poll_step(v, now_pressed, now).1 == (now_pressed && !v.was_pressed),
        poll_step(v, now_pressed, now).0.was_pressed == now_pressed,
{
}

/// In double-tap mode the poller fires only on a rising edge that comes less
/// than the window after the last falling edge.
pub proof fn lemma_poller_double_tap_needs_recent_release(v: PollerView, now_pressed: bool, now: u64)
    requires
        v.double_tap_ms is Some,
        poll_step(v, now_pressed, now).1,
    ensures
        now_pressed && !v.was_pressed,
        within(v.last_release_ms, now, v.double_tap_ms->0),
        poll_step(v, now_pressed, now).0.last_release_ms is None,
{
}

/// In double-tap mode, starting released with no remembered release, a tap
/// and a second press less than the window after its release fire once, on
/// the second press.
pub proof fn lemma_poller_double_tap_fires(window: u64, t0: u64, t1: u64, t2: u64)
    requires
        t1 <= t2,
        t2 - t1 < window,
    ensures
        ({
            let v = PollerView { was_pressed: false, last_release_ms: None, double_tap_ms: Some(window) };
            let (v1, f1) = poll_step(v, true, t0);
            let (v2, f2) = poll_step(v1, false, t1);
            let (v3, f3) = poll_step(v2, true, t2);
            !f1 && !f2 && f3
        }),
{
}

// ---------------------------------------------------------------------------
// Laws over a whole history of samples or events
// ---------------------------------------------------------------------------

/// The poller's state after the first `n` samples (each whether the hotkey
/// is held, and when).
pub open spec fn poll_state(v: PollerView, samples: Seq<(bool, u64)>, n: nat) -> PollerView
    decreases n,
{
    if n == 0 {
        v
    } else {
        let prev = poll_state(v, samples, (n - 1) as nat);
        poll_step(prev, samples[n - 1].0, samples[n - 1].1).0
    }
}

/// Whether the poller fires on sample `i`.
pub open spec fn poll_fires_at(v: PollerView, samples: Seq<(bool, u64)>, i: nat) -> bool {
    poll_step(poll_state(v, samples, i), samples[i as int].0, samples[i as int].1).1
}

/// The hotkey was held at the sample before `i` (never before the first).
pub open spec fn held_before(samples: Seq<(bool, u64)>, i: nat) -> bool {
    i > 0 && samples[i - 1].0
}

pub open spec fn rising_edge(samples: Seq<(bool, u64)>, i: nat) -> bool {
    samples[i as int].0 && !held_before(samples, i)
}

pub open spec fn falling_edge(samples: Seq<(bool, u64)>, i: nat) -> bool {
    !samples[i as int].0 && held_before(samples, i)
}

/// The time of the last falling edge among the first `n` samples.
pub open spec fn last_falling_edge(samples: Seq<(bool, u64)>, n: nat) -> Option<u64>
    decreases n,
{
    if n == 0 {
        None
    } else if falling_edge(samples, (n - 1) as nat) {
        Some(samples[n - 1].1)
    } else {
        last_falling_edge(samples, (n - 1) as nat)
    }
}

proof fn lemma_poll_state(dt: Option<u64>, samples: Seq<(bool, u64)>, n: nat)
    requires
        n <= samples.len(),
    ensures
        ({
            let st = poll_state(
                PollerView { was_pressed: false, last_release_ms: None, double_tap_ms: dt },
                samples,
                n,
            );
            &&& st.was_pressed == held_before(samples, n)
            &&& st.double_tap_ms == dt
            &&& (dt is Some && !held_before(samples, n)) ==> st.last_release_ms
                == last_falling_edge(samples, n)
        }),
    decreases n,
{
    if n > 0 {
        lemma_poll_state(dt, samples, (n - 1) as nat);
    }
}

/// Over any history of samples, starting from a fresh poller: the hotkey
/// fires on a sample exactly when it is a rising edge (never while held),
/// and in double-tap mode only when the last falling edge came less than
/// the window before it.
pub proof fn lemma_poller_history(dt: Option<u64>, samples: Seq<(bool, u64)>, i: nat)
    requires
        i < samples.len(),
    ensures
        poll_fires_at(
            PollerView { was_pressed: false, last_release_ms: None, double_tap_ms: dt },
            samples,
            i,
        ) == (rising_edge(samples, i) && match dt {
            None => true,
            Some(window) => within(last_falling_edge(samples, i), samples[i as int].1, window),
        }),
{
    lemma_poll_state(dt, samples, i);
}

/// The last falling edge is the latest one: it is a falling edge, and none
/// follows it among the first `n` samples; with none at all there is no
/// falling edge among them.
pub proof fn lemma_last_falling_edge(samples: Seq<(bool, u64)>, n: nat)
    requires
        n <= samples.len(),
    ensures
        last_falling_edge(samples, n) matches Some(t) ==> exists|j: nat|
            j < n && #[trigger] falling_edge(samples, j) && samples[j as int].1 == t && forall|k: nat|
                j < k < n ==> !#[trigger] falling_edge(samples, k),
        last_falling_edge(samples, n) is None ==> forall|k: nat|
            k < n ==> !#[trigger] falling_edge(samples, k),
    decreases n,
{
    if n > 0 {
        lemma_last_falling_edge(samples, (n - 1) as nat);
        if !falling_edge(samples, (n - 1) as nat) {
            if let Some(t) = last_falling_edge(samples, n) {
                let j = choose|j: nat|
                    j < n - 1 && #[trigger] falling_edge(samples, j) && samples[j as int].1 == t
                        && forall|k: nat| j < k < n - 1 ==> !#[trigger] falling_edge(samples, k);
                assert forall|k: nat| j < k < n implies !#[trigger] falling_edge(samples, k) by {
                    if k < n - 1 {
                    }
                }
            }
        } else {
            let j = (n - 1) as nat;
            assert(falling_edge(samples, j));
        }
    }
}

/// The keys held after the first `n` events, starting from `pressed`.
pub open spec fn held_keys(pressed: Set<Key>, events: Seq<(EventType, u64)>, n: nat) -> Set<Key>
    decreases n,
{
    if n == 0 {
        pressed
    } else {
        pressed_after(events[n - 1].0, held_keys(pressed, events, (n - 1) as nat))
    }
}

/// Whether event `i` fires the hotkey by itself: the target goes down with
/// every modifier held.
pub open spec fn fires_alone(v: ListenerView, events: Seq<(EventType, u64)>, i: nat) -> bool {
    fires(events[i as int].0, v.target, v.modifiers, held_keys(v.pressed, events, i))
}

/// The release of the target that a double tap can still complete after
/// the first `n` events: the latest one, unless a press that fired by itself
/// came after it.
pub open spec fn pending_release(v: ListenerView, events: Seq<(EventType, u64)>, n: nat) -> Option<
    u64,
>
    decreases n,
{
    if n == 0 {
        v.last_release_ms
    } else if events[n - 1].0 == EventType::KeyRelease(v.target) {
        Some(events[n - 1].1)
    } else if fires_alone(v, events, (n - 1) as nat) {
        None
    } else {
        pending_release(v, events, (n - 1) as nat)
    }
}

/// The listener's state after the first `n` events.
pub open spec fn listen_state(v: ListenerView, events: Seq<(EventType, u64)>, n: nat) -> ListenerView
    decreases n,
{
    if n == 0 {
        v
    } else {
        let prev = listen_state(v, events, (n - 1) as nat);
        listen_step(prev, events[n - 1].0, events[n - 1].1).0
    }
}

/// Whether the listener fires on event `i`.
pub open spec fn listen_fires_at(v: ListenerView, events: Seq<(EventType, u64)>, i: nat) -> bool {
    listen_step(listen_state(v, events, i), events[i as int].0, events[i as int].1).1
}

proof fn lemma_listen_state(v: ListenerView, events: Seq<(EventType, u64)>, n: nat)
    requires
        n <= events.len(),
    ensures
        listen_state(v, events, n) == (ListenerView {
            pressed: held_keys(v.pressed, events, n),
            last_release_ms: if v.double_tap_ms is Some {
                pending_release(v, events, n)
            } else {
                v.last_release_ms
            },
            ..v
        }),
    decreases n,
{
    if n > 0 {
        lemma_listen_state(v, events, (n - 1) as nat);
    }
}

/// Over any history of keyboard events: without a double-tap window the
/// hotkey fires exactly on the events that fire it by themselves; with one,
/// exactly on those that also come less than the window after the latest
/// release of the target not yet used by a firing press. A first tap and
/// any release never fire.
pub proof fn lemma_listener_history(v: ListenerView, events: Seq<(EventType, u64)>, i: nat)
    requires
        i < events.len(),
    ensures
        listen_fires_at(v, events, i) == (fires_alone(v, events, i) && match v.double_tap_ms {
            None => true,
            Some(window) => within(pending_release(v, events, i), events[i as int].1, window),
        }),
{
    lemma_listen_state(v, events, i);
}

// ---------------------------------------------------------------------------
// Laws on modifiers
// ---------------------------------------------------------------------------

/// Either key of a left/right pair holds its modifier: a group is active
/// exactly when one of its own keys is down. Control (left or right), Shift
/// (left or right), Alt (Alt or AltGr), Command/Windows (left or right); the
/// right-Command group only by the right Command key.
pub proof fn lemma_modifier_keys(pressed: Set<Key>)
    ensures
        modifier_active(ModifierGroup::Ctrl, pressed) <==> (pressed.contains(Key::ControlLeft)
            || pressed.contains(Key::ControlRight)),
        modifier_active(ModifierGroup::Shift, pressed) <==> (pressed.contains(Key::ShiftLeft)
            || pressed.contains(Key::ShiftRight)),
        modifier_active(ModifierGroup::Alt, pressed) <==> (pressed.contains(Key::Alt)
            || pressed.contains(Key::AltGr)),
        modifier_active(ModifierGroup::Meta, pressed) <==> (pressed.contains(Key::MetaLeft)
            || pressed.contains(Key::MetaRight)),
        modifier_active(ModifierGroup::MetaRight, pressed) <==> pressed.contains(Key::MetaRight),
{
}

/// Holding more keys never releases a modifier.
pub proof fn lemma_modifier_monotone(m: ModifierGroup, pressed: Set<Key>, more: Set<Key>)
    requires
        pressed.subset_of(more),
        modifier_active(m, pressed),
    ensures
        modifier_active(m, more),
{
}

/// Keys outside the modifier pairs (letters, digits, function and special
/// keys) never make a modifier active.
pub proof fn lemma_other_keys_hold_no_modifier(m: ModifierGroup, pressed: Set<Key>, k: Key)
    requires
        k != Key::ControlLeft && k != Key::ControlRight && k != Key::ShiftLeft && k
            != Key::ShiftRight && k != Key::Alt && k != Key::AltGr && k != Key::MetaLeft && k
            != Key::MetaRight,
    ensures
        modifier_active(m, pressed.insert(k)) == modifier_active(m, pressed),
{
}

/// With either Command/Windows key held, pressing the target fires a hotkey
/// that requires the Command modifier; with neither held it does not.
pub proof fn lemma_either_command_key_fires(target: Key, pressed: Set<Key>)
    requires
        target != Key::MetaLeft && target != Key::MetaRight,
    ensures
        (pressed.contains(Key::MetaLeft) || pressed.contains(Key::MetaRight)) ==> fires(
            EventType::KeyPress(target),
            target,
            seq![ModifierGroup::Meta],
            pressed,
        ),
        !(pressed.contains(Key::MetaLeft) || pressed.contains(Key::MetaRight)) ==> !fires(
            EventType::KeyPress(target),
            target,
            seq![ModifierGroup::Meta],
            pressed,
        ),
{
    let mods = seq![ModifierGroup::Meta];
    let after = pressed.insert(target);
    if !(pressed.contains(Key::MetaLeft) || pressed.contains(Key::MetaRight)) {
        assert(!modifier_active(mods[0], after));
    }
}

// ---------------------------------------------------------------------------
// Laws on key names
// ---------------------------------------------------------------------------

/// Every name a hotkey may use for a key: its canonical name first, then
/// its aliases (a letter in either case). Keys that no name denotes have
/// none.
pub open spec fn key_names(k: Key) -> Seq<Seq<char>> {
    match k {
        Key::F1 => seq!["F1"@],
        Key::F2 => seq!["F2"@],
        Key::F3 => seq!["F3"@],
        Key::F4 => seq!["F4"@],
        Key::F5 => seq!["F5"@],
        Key::F6 => seq!["F6"@],
        Key::F7 => seq!["F7"@],
        Key::F8 => seq!["F8"@],
        Key::F9 => seq!["F9"@],
        Key::F10 => seq!["F10"@],
        Key::F11 => seq!["F11"@],
        Key::F12 => seq!["F12"@],
        Key::CapsLock => seq!["CapsLock"@],
        Key::Space => seq!["Space"@],
        Key::Tab => seq!["Tab"@],
        Key::Return => seq!["Return"@, "Enter"@],
        Key::Escape => seq!["Escape"@, "Esc"@],
        Key::Backspace => seq!["Backspace"@],
        Key::Delete => seq!["Delete"@, "Del"@],
        Key::Home => seq!["Home"@],
        Key::End => seq!["End"@],
        Key::PageUp => seq!["PageUp"@],
        Key::PageDown => seq!["PageDown"@],
        Key::UpArrow => seq!["UpArrow"@, "Up"@],
        Key::DownArrow => seq!["DownArrow"@, "Down"@],
        Key::LeftArrow => seq!["LeftArrow"@, "Left"@],
        Key::RightArrow => seq!["RightArrow"@, "Right"@],
        Key::MetaRight => seq!["RightCmd"@, "RightCommand"@, "RightMeta"@, "RightWin"@, "RightSuper"@],
        Key::MetaLeft => seq!["LeftCmd"@, "LeftCommand"@, "LeftMeta"@, "LeftWin"@, "LeftSuper"@],
        Key::KeyA => seq!["A"@, "a"@],
        Key::KeyB => seq!["B"@, "b"@],
        Key::KeyC => seq!["C"@, "c"@],
        Key::KeyD => seq!["D"@, "d"@],
        Key::KeyE => seq!["E"@, "e"@],
        Key::KeyF => seq!["F"@, "f"@],
        Key::KeyG => seq!["G"@, "g"@],
        Key::KeyH => seq!["H"@, "h"@],
        Key::KeyI => seq!["I"@, "i"@],
        Key::KeyJ => seq!["J"@, "j"@],
        Key::KeyK => seq!["K"@, "k"@],
        Key::KeyL => seq!["L"@, "l"@],
        Key::KeyM => seq!["M"@, "m"@],
        Key::KeyN => seq!["N"@, "n"@],
        Key::KeyO => seq!["O"@, "o"@],
        Key::KeyP => seq!["P"@, "p"@],
        Key::KeyQ => seq!["Q"@, "q"@],
        Key::KeyR => seq!["R"@, "r"@],
        Key::KeyS => seq!["S"@, "s"@],
        Key::KeyT => seq!["T"@, "t"@],
        Key::KeyU => seq!["U"@, "u"@],
        Key::KeyV => seq!["V"@, "v"@],
        Key::KeyW => seq!["W"@, "w"@],
        Key::KeyX => seq!["X"@, "x"@],
        Key::KeyY => seq!["Y"@, "y"@],
        Key::KeyZ => seq!["Z"@, "z"@],
        Key::Num0 => seq!["0"@],
        Key::Num1 => seq!["1"@],
        Key::Num2 => seq!["2"@],
        Key::Num3 => seq!["3"@],
        Key::Num4 => seq!["4"@],
        Key::Num5 => seq!["5"@],
        Key::Num6 => seq!["6"@],
        Key::Num7 => seq!["7"@],
        Key::Num8 => seq!["8"@],
        Key::Num9 => seq!["9"@],
        _ => Seq::empty(),
    }
}

/// The characters of the names used in the key-name laws.
proof fn lemma_key_name_literals()
    ensures
        "F1"@.len() == 2,
        "F1"@[0] == 'F',
        "F1"@[1] == '1',
        "F2"@.len() == 2,
        "F2"@[0] == 'F',
        "F2"@[1] == '2',
        "F3"@.len() == 2,
        "F3"@[0] == 'F',
        "F3"@[1] == '3',
        "F4"@.len() == 2,
        "F4"@[0] == 'F',
        "F4"@[1] == '4',
        "F5"@.len() == 2,
        "F5"@[0] == 'F',
        "F5"@[1] == '5',
        "F6"@.len() == 2,
        "F6"@[0] == 'F',
        "F6"@[1] == '6',
        "F7"@.len() == 2,
        "F7"@[0] == 'F',
        "F7"@[1] == '7',
        "F8"@.len() == 2,
        "F8"@[0] == 'F',
        "F8"@[1] == '8',
        "F9"@.len() == 2,
        "F9"@[0] == 'F',
        "F9"@[1] == '9',
        "F10"@.len() == 3,
        "F10"@[0] == 'F',
        "F10"@[1] == '1',
        "F10"@[2] == '0',
        "F11"@.len() == 3,
        "F11"@[0] == 'F',
        "F11"@[1] == '1',
        "F11"@[2] == '1',
        "F12"@.len() == 3,
        "F12"@[0] == 'F',
        "F12"@[1] == '1',
        "F12"@[2] == '2',
        "CapsLock"@.len() == 8,
        "CapsLock"@[0] == 'C',
        "CapsLock"@[1] == 'a',
        "CapsLock"@[2] == 'p',
        "CapsLock"@[3] == 's',
        "CapsLock"@[4] == 'L',
        "CapsLock"@[5] == 'o',
        "CapsLock"@[6] == 'c',
        "CapsLock"@[7] == 'k',
        "Space"@.len() == 5,
        "Space"@[0] == 'S',
        "Space"@[1] == 'p',
        "Space"@[2] == 'a',
        "Space"@[3] == 'c',
        "Space"@[4] == 'e',
        "Tab"@.len() == 3,
        "Tab"@[0] == 'T',
        "Tab"@[1] == 'a',
        "Tab"@[2] == 'b',
        "Return"@.len() == 6,
        "Return"@[0] == 'R',
        "Return"@[1] == 'e',
        "Return"@[2] == 't',
        "Return"@[3] == 'u',
        "Return"@[4] == 'r',
        "Return"@[5] == 'n',
        "Enter"@.len() == 5,
        "Enter"@[0] == 'E',
        "Enter"@[1] == 'n',
        "Enter"@[2] == 't',
        "Enter"@[3] == 'e',
        "Enter"@[4] == 'r',
        "Escape"@.len() == 6,
        "Escape"@[0] == 'E',
        "Escape"@[1] == 's',
        "Escape"@[2] == 'c',
        "Escape"@[3] == 'a',
        "Escape"@[4] == 'p',
        "Escape"@[5] == 'e',
        "Esc"@.len() == 3,
        "Esc"@[0] == 'E',
        "Esc"@[1] == 's',
        "Esc"@[2] == 'c',
        "Backspace"@.len() == 9,
        "Backspace"@[0] == 'B',
        "Backspace"@[1] == 'a',
        "Backspace"@[2] == 'c',
        "Backspace"@[3] == 'k',
        "Backspace"@[4] == 's',
        "Backspace"@[5] == 'p',
        "Backspace"@[6] == 'a',
        "Backspace"@[7] == 'c',
        "Backspace"@[8] == 'e',
        "Delete"@.len() == 6,
        "Delete"@[0] == 'D',
        "Delete"@[1] == 'e',
        "Delete"@[2] == 'l',
        "Delete"@[3] == 'e',
        "Delete"@[4] == 't',
        "Delete"@[5] == 'e',
        "Del"@.len() == 3,
        "Del"@[0] == 'D',
        "Del"@[1] == 'e',
        "Del"@[2] == 'l',
        "Home"@.len() == 4,
        "Home"@[0] == 'H',
        "Home"@[1] == 'o',
        "Home"@[2] == 'm',
        "Home"@[3] == 'e',
        "End"@.len() == 3,
        "End"@[0] == 'E',
        "End"@[1] == 'n',
        "End"@[2] == 'd',
        "PageUp"@.len() == 6,
        "PageUp"@[0] == 'P',
        "PageUp"@[1] == 'a',
        "PageUp"@[2] == 'g',
        "PageUp"@[3] == 'e',
        "PageUp"@[4] == 'U',
        "PageUp"@[5] == 'p',
        "PageDown"@.len() == 8,
        "PageDown"@[0] == 'P',
        "PageDown"@[1] == 'a',
        "PageDown"@[2] == 'g',
        "PageDown"@[3] == 'e',
        "PageDown"@[4] == 'D',
        "PageDown"@[5] == 'o',
        "PageDown"@[6] == 'w',
        "PageDown"@[7] == 'n',
        "UpArrow"@.len() == 7,
        "UpArrow"@[0] == 'U',
        "UpArrow"@[1] == 'p',
        "UpArrow"@[2] == 'A',
        "UpArrow"@[3] == 'r',
        "UpArrow"@[4] == 'r',
        "UpArrow"@[5] == 'o',
        "UpArrow"@[6] == 'w',
        "Up"@.len() == 2,
        "Up"@[0] == 'U',
        "Up"@[1] == 'p',
        "DownArrow"@.len() == 9,
        "DownArrow"@[0] == 'D',
        "DownArrow"@[1] == 'o',
        "DownArrow"@[2] == 'w',
        "DownArrow"@[3] == 'n',
        "DownArrow"@[4] == 'A',
        "DownArrow"@[5] == 'r',
        "DownArrow"@[6] == 'r',
        "DownArrow"@[7] == 'o',
        "DownArrow"@[8] == 'w',
        "Down"@.len() == 4,
        "Down"@[0] == 'D',
        "Down"@[1] == 'o',
        "Down"@[2] == 'w',
        "Down"@[3] == 'n',
        "LeftArrow"@.len() == 9,
        "LeftArrow"@[0] == 'L',
        "LeftArrow"@[1] == 'e',
        "LeftArrow"@[2] == 'f',
        "LeftArrow"@[3] == 't',
        "LeftArrow"@[4] == 'A',
        "LeftArrow"@[5] == 'r',
        "LeftArrow"@[6] == 'r',
        "LeftArrow"@[7] == 'o',
        "LeftArrow"@[8] == 'w',
        "Left"@.len() == 4,
        "Left"@[0] == 'L',
        "Left"@[1] == 'e',
        "Left"@[2] == 'f',
        "Left"@[3] == 't',
        "RightArrow"@.len() == 10,
        "RightArrow"@[0] == 'R',
        "RightArrow"@[1] == 'i',
        "RightArrow"@[2] == 'g',
        "RightArrow"@[3] == 'h',
        "RightArrow"@[4] == 't',
        "RightArrow"@[5] == 'A',
        "RightArrow"@[6] == 'r',
        "RightArrow"@[7] == 'r',
        "RightArrow"@[8] == 'o',
        "RightArrow"@[9] == 'w',
        "Right"@.len() == 5,
        "Right"@[0] == 'R',
        "Right"@[1] == 'i',
        "Right"@[2] == 'g',
        "Right"@[3] == 'h',
        "Right"@[4] == 't',
        "RightCmd"@.len() == 8,
        "RightCmd"@[0] == 'R',
        "RightCmd"@[1] == 'i',
        "RightCmd"@[2] == 'g',
        "RightCmd"@[3] == 'h',
        "RightCmd"@[4] == 't',
        "RightCmd"@[5] == 'C',
        "RightCmd"@[6] == 'm',
        "RightCmd"@[7] == 'd',
        "RightCommand"@.len() == 12,
        "RightCommand"@[0] == 'R',
        "RightCommand"@[1] == 'i',
        "RightCommand"@[2] == 'g',
        "RightCommand"@[3] == 'h',
        "RightCommand"@[4] == 't',
        "RightCommand"@[5] == 'C',
        "RightCommand"@[6] == 'o',
        "RightCommand"@[7] == 'm',
        "RightCommand"@[8] == 'm',
        "RightCommand"@[9] == 'a',
        "RightCommand"@[10] == 'n',
        "RightCommand"@[11] == 'd',
        "RightMeta"@.len() == 9,
        "RightMeta"@[0] == 'R',
        "RightMeta"@[1] == 'i',
        "RightMeta"@[2] == 'g',
        "RightMeta"@[3] == 'h',
        "RightMeta"@[4] == 't',
        "RightMeta"@[5] == 'M',
        "RightMeta"@[6] == 'e',
        "RightMeta"@[7] == 't',
        "RightMeta"@[8] == 'a',
        "RightWin"@.len() == 8,
        "RightWin"@[0] == 'R',
        "RightWin"@[1] == 'i',
        "RightWin"@[2] == 'g',
        "RightWin"@[3] == 'h',
        "RightWin"@[4] == 't',
        "RightWin"@[5] == 'W',
        "RightWin"@[6] == 'i',
        "RightWin"@[7] == 'n',
        "RightSuper"@.len() == 10,
        "RightSuper"@[0] == 'R',
        "RightSuper"@[1] == 'i',
        "RightSuper"@[2] == 'g',
        "RightSuper"@[3] == 'h',
        "RightSuper"@[4] == 't',
        "RightSuper"@[5] == 'S',
        "RightSuper"@[6] == 'u',
        "RightSuper"@[7] == 'p',
        "RightSuper"@[8] == 'e',
        "RightSuper"@[9] == 'r',
        "LeftCmd"@.len() == 7,
        "LeftCmd"@[0] == 'L',
        "LeftCmd"@[1] == 'e',
        "LeftCmd"@[2] == 'f',
        "LeftCmd"@[3] == 't',
        "LeftCmd"@[4] == 'C',
        "LeftCmd"@[5] == 'm',
        "LeftCmd"@[6] == 'd',
        "LeftCommand"@.len() == 11,
        "LeftCommand"@[0] == 'L',
        "LeftCommand"@[1] == 'e',
        "LeftCommand"@[2] == 'f',
        "LeftCommand"@[3] == 't',
        "LeftCommand"@[4] == 'C',
        "LeftCommand"@[5] == 'o',
        "LeftCommand"@[6] == 'm',
        "LeftCommand"@[7] == 'm',
        "LeftCommand"@[8] == 'a',
        "LeftCommand"@[9] == 'n',
        "LeftCommand"@[10] == 'd',
        "LeftMeta"@.len() == 8,
        "LeftMeta"@[0] == 'L',
        "LeftMeta"@[1] == 'e',
        "LeftMeta"@[2] == 'f',
        "LeftMeta"@[3] == 't',
        "LeftMeta"@[4] == 'M',
        "LeftMeta"@[5] == 'e',
        "LeftMeta"@[6] == 't',
        "LeftMeta"@[7] == 'a',
        "LeftWin"@.len() == 7,
        "LeftWin"@[0] == 'L',
        "LeftWin"@[1] == 'e',
        "LeftWin"@[2] == 'f',
        "LeftWin"@[3] == 't',
        "LeftWin"@[4] == 'W',
        "LeftWin"@[5] == 'i',
        "LeftWin"@[6] == 'n',
        "LeftSuper"@.len() == 9,
        "LeftSuper"@[0] == 'L',
        "LeftSuper"@[1] == 'e',
        "LeftSuper"@[2] == 'f',
        "LeftSuper"@[3] == 't',
        "LeftSuper"@[4] == 'S',
        "LeftSuper"@[5] == 'u',
        "LeftSuper"@[6] == 'p',
        "LeftSuper"@[7] == 'e',
        "LeftSuper"@[8] == 'r',
        "A"@.len() == 1,
        "A"@[0] == 'A',
        "B"@.len() == 1,
        "B"@[0] == 'B',
        "C"@.len() == 1,
        "C"@[0] == 'C',
        "D"@.len() == 1,
        "D"@[0] == 'D',
        "E"@.len() == 1,
        "E"@[0] == 'E',
        "F"@.len() == 1,
        "F"@[0] == 'F',
        "G"@.len() == 1,
        "G"@[0] == 'G',
        "H"@.len() == 1,
        "H"@[0] == 'H',
        "I"@.len() == 1,
        "I"@[0] == 'I',
        "J"@.len() == 1,
        "J"@[0] == 'J',
        "K"@.len() == 1,
        "K"@[0] == 'K',
        "L"@.len() == 1,
        "L"@[0] == 'L',
        "M"@.len() == 1,
        "M"@[0] == 'M',
        "N"@.len() == 1,
        "N"@[0] == 'N',
        "O"@.len() == 1,
        "O"@[0] == 'O',
        "P"@.len() == 1,
        "P"@[0] == 'P',
        "Q"@.len() == 1,
        "Q"@[0] == 'Q',
        "R"@.len() == 1,
        "R"@[0] == 'R',
        "S"@.len() == 1,
        "S"@[0] == 'S',
        "T"@.len() == 1,
        "T"@[0] == 'T',
        "U"@.len() == 1,
        "U"@[0] == 'U',
        "V"@.len() == 1,
        "V"@[0] == 'V',
        "W"@.len() == 1,
        "W"@[0] == 'W',
        "X"@.len() == 1,
        "X"@[0] == 'X',
        "Y"@.len() == 1,
        "Y"@[0] == 'Y',
        "Z"@.len() == 1,
        "Z"@[0] == 'Z',
        "a"@.len() == 1,
        "a"@[0] == 'a',
        "b"@.len() == 1,
        "b"@[0] == 'b',
        "c"@.len() == 1,
        "c"@[0] == 'c',
        "d"@.len() == 1,
        "d"@[0] == 'd',
        "e"@.len() == 1,
        "e"@[0] == 'e',
        "f"@.len() == 1,
        "f"@[0] == 'f',
        "g"@.len() == 1,
        "g"@[0] == 'g',
        "h"@.len() == 1,
        "h"@[0] == 'h',
        "i"@.len() == 1,
        "i"@[0] == 'i',
        "j"@.len() == 1,
        "j"@[0] == 'j',
        "k"@.len() == 1,
        "k"@[0] == 'k',
        "l"@.len() == 1,
        "l"@[0] == 'l',
        "m"@.len() == 1,
        "m"@[0] == 'm',
        "n"@.len() == 1,
        "n"@[0] == 'n',
        "o"@.len() == 1,
        "o"@[0] == 'o',
        "p"@.len() == 1,
        "p"@[0] == 'p',
        "q"@.len() == 1,
        "q"@[0] == 'q',
        "r"@.len() == 1,
        "r"@[0] == 'r',
        "s"@.len() == 1,
        "s"@[0] == 's',
        "t"@.len() == 1,
        "t"@[0] == 't',
        "u"@.len() == 1,
        "u"@[0] == 'u',
        "v"@.len() == 1,
        "v"@[0] == 'v',
        "w"@.len() == 1,
        "w"@[0] == 'w',
        "x"@.len() == 1,
        "x"@[0] == 'x',
        "y"@.len() == 1,
        "y"@[0] == 'y',
        "z"@.len() == 1,
        "z"@[0] == 'z',
        "0"@.len() == 1,
        "0"@[0] == '0',
        "1"@.len() == 1,
        "1"@[0] == '1',
        "2"@.len() == 1,
        "2"@[0] == '2',
        "3"@.len() == 1,
        "3"@[0] == '3',
        "4"@.len() == 1,
        "4"@[0] == '4',
        "5"@.len() == 1,
        "5"@[0] == '5',
        "6"@.len() == 1,
        "6"@[0] == '6',
        "7"@.len() == 1,
        "7"@[0] == '7',
        "8"@.len() == 1,
        "8"@[0] == '8',
        "9"@.len() == 1,
        "9"@[0] == '9',
{
    reveal_strlit("F1");
    reveal_strlit("F2");
    reveal_strlit("F3");
    reveal_strlit("F4");
    reveal_strlit("F5");
    reveal_strlit("F6");
    reveal_strlit("F7");
    reveal_strlit("F8");
    reveal_strlit("F9");
    reveal_strlit("F10");
    reveal_strlit("F11");
    reveal_strlit("F12");
    reveal_strlit("CapsLock");
    reveal_strlit("Space");
    reveal_strlit("Tab");
    reveal_strlit("Return");
    reveal_strlit("Enter");
    reveal_strlit("Escape");
    reveal_strlit("Esc");
    reveal_strlit("Backspace");
    reveal_strlit("Delete");
    reveal_strlit("Del");
    reveal_strlit("Home");
    reveal_strlit("End");
    reveal_strlit("PageUp");
    reveal_strlit("PageDown");
    reveal_strlit("UpArrow");
    reveal_strlit("Up");
    reveal_strlit("DownArrow");
    reveal_strlit("Down");
    reveal_strlit("LeftArrow");
    reveal_strlit("Left");
    reveal_strlit("RightArrow");
    reveal_strlit("Right");
    reveal_strlit("RightCmd");
    reveal_strlit("RightCommand");
    reveal_strlit("RightMeta");
    reveal_strlit("RightWin");
    reveal_strlit("RightSuper");
    reveal_strlit("LeftCmd");
    reveal_strlit("LeftCommand");
    reveal_strlit("LeftMeta");
    reveal_strlit("LeftWin");
    reveal_strlit("LeftSuper");
    reveal_strlit("A");
    reveal_strlit("B");
    reveal_strlit("C");
    reveal_strlit("D");
    reveal_strlit("E");
    reveal_strlit("F");
    reveal_strlit("G");
    reveal_strlit("H");
    reveal_strlit("I");
    reveal_strlit("J");
    reveal_strlit("K");
    reveal_strlit("L");
    reveal_strlit("M");
    reveal_strlit("N");
    reveal_strlit("O");
    reveal_strlit("P");
    reveal_strlit("Q");
    reveal_strlit("R");
    reveal_strlit("S");
    reveal_strlit("T");
    reveal_strlit("U");
    reveal_strlit("V");
    reveal_strlit("W");
    reveal_strlit("X");
    reveal_strlit("Y");
    reveal_strlit("Z");
    reveal_strlit("a");
    reveal_strlit("b");
    reveal_strlit("c");
    reveal_strlit("d");
    reveal_strlit("e");
    reveal_strlit("f");
    reveal_strlit("g");
    reveal_strlit("h");
    reveal_strlit("i");
    reveal_strlit("j");
    reveal_strlit("k");
    reveal_strlit("l");
    reveal_strlit("m");
    reveal_strlit("n");
    reveal_strlit("o");
    reveal_strlit("p");
    reveal_strlit("q");
    reveal_strlit("r");
    reveal_strlit("s");
    reveal_strlit("t");
    reveal_strlit("u");
    reveal_strlit("v");
    reveal_strlit("w");
    reveal_strlit("x");
    reveal_strlit("y");
    reveal_strlit("z");
    reveal_strlit("0");
    reveal_strlit("1");
    reveal_strlit("2");
    reveal_strlit("3");
    reveal_strlit("4");
    reveal_strlit("5");
    reveal_strlit("6");
    reveal_strlit("7");
    reveal_strlit("8");
    reveal_strlit("9");
}

/// Each name of a key denotes that key: `PageDown` the PageDown key,
/// `Esc` the Escape key, `q` and `Q` the Q key, and so on for every key
/// that has a name.
#[verifier::rlimit(100)]
pub proof fn lemma_key_names_denote_their_key(k: Key, i: int)
    requires
        0 <= i < key_names(k).len(),
    ensures
        key_of_name(key_names(k)[i]) == Ok::<Key, Seq<char>>(k),
{
    lemma_key_name_literals();
}

/// A name denotes a key only if it is one of that key's names: no two keys
/// share a name, and no name outside the lists is accepted.
#[verifier::rlimit(100)]
pub proof fn lemma_key_names_are_exact(n: Seq<char>, k: Key)
    requires
        key_of_name(n) == Ok::<Key, Seq<char>>(k),
    ensures
        key_names(k).contains(n),
{
    lemma_key_name_literals();
    if n == "F1"@ {
        assert(key_names(k)[0] == n);
    }
    else if n == "F2"@ {
        assert(key_names(k)[0] == n);
    }
    else if n == "F3"@ {
        assert(key_names(k)[0] == n);
    }
    else if n == "F4"@ {
        assert(key_names(k)[0] == n);
    }
    else if n == "F5"@ {
        assert(key_names(k)[0] == n);
    }
    else if n == "F6"@ {
        assert(key_names(k)[0] == n);
    }
    else if n == "F7"@ {
        assert(key_names(k)[0] == n);
    }
    else if n == "F8"@ {
        assert(key_names(k)[0] == n);
    }
    else if n == "F9"@ {
        assert(key_names(k)[0] == n);
    }
    else if n == "F10"@ {
        assert(key_names(k)[0] == n);
    }
    else if n == "F11"@ {
        assert(key_names(k)[0] == n);
    }
    else if n == "F12"@ {
        assert(key_names(k)[0] == n);
    }
    else if n == "CapsLock"@ {
        assert(key_names(k)[0] == n);
    }
    else if n == "Space"@ {
        assert(key_names(k)[0] == n);
    }
    else if n == "Tab"@ {
        assert(key_names(k)[0] == n);
    }
    else if n == "Return"@ {
        assert(key_names(k)[0] == n);
    }
    else if n == "Enter"@ {
        assert(key_names(k)[1] == n);
    }
    else if n == "Escape"@ {
        assert(key_names(k)[0] == n);
    }
    else if n == "Esc"@ {
        assert(key_names(k)[1] == n);
    }
    else if n == "Backspace"@ {
        assert(key_names(k)[0] == n);
    }
    else if n == "Delete"@ {
        assert(key_names(k)[0] == n);
    }
    else if n == "Del"@ {
        assert(key_names(k)[1] == n);
    }
    else if n == "Home"@ {
        assert(key_names(k)[0] == n);
    }
    else if n == "End"@ {
        assert(key_names(k)[0] == n);
    }
    else if n == "PageUp"@ {
        assert(key_names(k)[0] == n);
    }
    else if n == "PageDown"@ {
        assert(key_names(k)[0] == n);
    }
    else if n == "UpArrow"@ {
        assert(key_names(k)[0] == n);
    }
    else if n == "Up"@ {
        assert(key_names(k)[1] == n);
    }
    else if n == "DownArrow"@ {
        assert(key_names(k)[0] == n);
    }
    else if n == "Down"@ {
        assert(key_names(k)[1] == n);
    }
    else if n == "LeftArrow"@ {
        assert(key_names(k)[0] == n);
    }
    else if n == "Left"@ {
        assert(key_names(k)[1] == n);
    }
    else if n == "RightArrow"@ {
        assert(key_names(k)[0] == n);
    }
    else if n == "Right"@ {
        assert(key_names(k)[1] == n);
    }
    else if n == "RightCmd"@ {
        assert(key_names(k)[0] == n);
    }
    else if n == "RightCommand"@ {
        assert(key_names(k)[1] == n);
    }
    else if n == "RightMeta"@ {
        assert(key_names(k)[2] == n);
    }
    else if n == "RightWin"@ {
        assert(key_names(k)[3] == n);
    }
    else if n == "RightSuper"@ {
        assert(key_names(k)[4] == n);
    }
    else if n == "LeftCmd"@ {
        assert(key_names(k)[0] == n);
    }
    else if n == "LeftCommand"@ {
        assert(key_names(k)[1] == n);
    }
    else if n == "LeftMeta"@ {
        assert(key_names(k)[2] == n);
    }
    else if n == "LeftWin"@ {
        assert(key_names(k)[3] == n);
    }
    else if n == "LeftSuper"@ {
        assert(key_names(k)[4] == n);
    } else {
        if n[0] == 'A' {
            assert(n =~= "A"@);
            assert(key_names(k)[0] == n);
        }
        else if n[0] == 'a' {
            assert(n =~= "a"@);
            assert(key_names(k)[1] == n);
        }
        else if n[0] == 'B' {
            assert(n =~= "B"@);
            assert(key_names(k)[0] == n);
        }
        else if n[0] == 'b' {
            assert(n =~= "b"@);
            assert(key_names(k)[1] == n);
        }
        else if n[0] == 'C' {
            assert(n =~= "C"@);
            assert(key_names(k)[0] == n);
        }
        else if n[0] == 'c' {
            assert(n =~= "c"@);
            assert(key_names(k)[1] == n);
        }
        else if n[0] == 'D' {
            assert(n =~= "D"@);
            assert(key_names(k)[0] == n);
        }
        else if n[0] == 'd' {
            assert(n =~= "d"@);
            assert(key_names(k)[1] == n);
        }
        else if n[0] == 'E' {
            assert(n =~= "E"@);
            assert(key_names(k)[0] == n);
        }
        else if n[0] == 'e' {
            assert(n =~= "e"@);
            assert(key_names(k)[1] == n);
        }
        else if n[0] == 'F' {
            assert(n =~= "F"@);
            assert(key_names(k)[0] == n);
        }
        else if n[0] == 'f' {
            assert(n =~= "f"@);
            assert(key_names(k)[1] == n);
        }
        else if n[0] == 'G' {
            assert(n =~= "G"@);
            assert(key_names(k)[0] == n);
        }
        else if n[0] == 'g' {
            assert(n =~= "g"@);
            assert(key_names(k)[1] == n);
        }
        else if n[0] == 'H' {
            assert(n =~= "H"@);
            assert(key_names(k)[0] == n);
        }
        else if n[0] == 'h' {
            assert(n =~= "h"@);
            assert(key_names(k)[1] == n);
        }
        else if n[0] == 'I' {
            assert(n =~= "I"@);
            assert(key_names(k)[0] == n);
        }
        else if n[0] == 'i' {
            assert(n =~= "i"@);
            assert(key_names(k)[1] == n);
        }
        else if n[0] == 'J' {
            assert(n =~= "J"@);
            assert(key_names(k)[0] == n);
        }
        else if n[0] == 'j' {
            assert(n =~= "j"@);
            assert(key_names(k)[1] == n);
        }
        else if n[0] == 'K' {
            assert(n =~= "K"@);
            assert(key_names(k)[0] == n);
        }
        else if n[0] == 'k' {
            assert(n =~= "k"@);
            assert(key_names(k)[1] == n);
        }
        else if n[0] == 'L' {
            assert(n =~= "L"@);
            assert(key_names(k)[0] == n);
        }
        else if n[0] == 'l' {
            assert(n =~= "l"@);
            assert(key_names(k)[1] == n);
        }
        else if n[0] == 'M' {
            assert(n =~= "M"@);
            assert(key_names(k)[0] == n);
        }
        else if n[0] == 'm' {
            assert(n =~= "m"@);
            assert(key_names(k)[1] == n);
        }
        else if n[0] == 'N' {
            assert(n =~= "N"@);
            assert(key_names(k)[0] == n);
        }
        else if n[0] == 'n' {
            assert(n =~= "n"@);
            assert(key_names(k)[1] == n);
        }
        else if n[0] == 'O' {
            assert(n =~= "O"@);
            assert(key_names(k)[0] == n);
        }
        else if n[0] == 'o' {
            assert(n =~= "o"@);
            assert(key_names(k)[1] == n);
        }
        else if n[0] == 'P' {
            assert(n =~= "P"@);
            assert(key_names(k)[0] == n);
        }
        else if n[0] == 'p' {
            assert(n =~= "p"@);
            assert(key_names(k)[1] == n);
        }
        else if n[0] == 'Q' {
            assert(n =~= "Q"@);
            assert(key_names(k)[0] == n);
        }
        else if n[0] == 'q' {
            assert(n =~= "q"@);
            assert(key_names(k)[1] == n);
        }
        else if n[0] == 'R' {
            assert(n =~= "R"@);
            assert(key_names(k)[0] == n);
        }
        else if n[0] == 'r' {
            assert(n =~= "r"@);
            assert(key_names(k)[1] == n);
        }
        else if n[0] == 'S' {
            assert(n =~= "S"@);
            assert(key_names(k)[0] == n);
        }
        else if n[0] == 's' {
            assert(n =~= "s"@);
            assert(key_names(k)[1] == n);
        }
        else if n[0] == 'T' {
            assert(n =~= "T"@);
            assert(key_names(k)[0] == n);
        }
        else if n[0] == 't' {
            assert(n =~= "t"@);
            assert(key_names(k)[1] == n);
        }
        else if n[0] == 'U' {
            assert(n =~= "U"@);
            assert(key_names(k)[0] == n);
        }
        else if n[0] == 'u' {
            assert(n =~= "u"@);
            assert(key_names(k)[1] == n);
        }
        else if n[0] == 'V' {
            assert(n =~= "V"@);
            assert(key_names(k)[0] == n);
        }
        else if n[0] == 'v' {
            assert(n =~= "v"@);
            assert(key_names(k)[1] == n);
        }
        else if n[0] == 'W' {
            assert(n =~= "W"@);
            assert(key_names(k)[0] == n);
        }
        else if n[0] == 'w' {
            assert(n =~= "w"@);
            assert(key_names(k)[1] == n);
        }
        else if n[0] == 'X' {
            assert(n =~= "X"@);
            assert(key_names(k)[0] == n);
        }
        else if n[0] == 'x' {
            assert(n =~= "x"@);
            assert(key_names(k)[1] == n);
        }
        else if n[0] == 'Y' {
            assert(n =~= "Y"@);
            assert(key_names(k)[0] == n);
        }
        else if n[0] == 'y' {
            assert(n =~= "y"@);
            assert(key_names(k)[1] == n);
        }
        else if n[0] == 'Z' {
            assert(n =~= "Z"@);
            assert(key_names(k)[0] == n);
        }
        else if n[0] == 'z' {
            assert(n =~= "z"@);
            assert(key_names(k)[1] == n);
        }
        else if n[0] == '0' {
            assert(n =~= "0"@);
            assert(key_names(k)[0] == n);
        }
        else if n[0] == '1' {
            assert(n =~= "1"@);
            assert(key_names(k)[0] == n);
        }
        else if n[0] == '2' {
            assert(n =~= "2"@);
            assert(key_names(k)[0] == n);
        }
        else if n[0] == '3' {
            assert(n =~= "3"@);
            assert(key_names(k)[0] == n);
        }
        else if n[0] == '4' {
            assert(n =~= "4"@);
            assert(key_names(k)[0] == n);
        }
        else if n[0] == '5' {
            assert(n =~= "5"@);
            assert(key_names(k)[0] == n);
        }
        else if n[0] == '6' {
            assert(n =~= "6"@);
            assert(key_names(k)[0] == n);
        }
        else if n[0] == '7' {
            assert(n =~= "7"@);
            assert(key_names(k)[0] == n);
        }
        else if n[0] == '8' {
            assert(n =~= "8"@);
            assert(key_names(k)[0] == n);
        }
        else if n[0] == '9' {
            assert(n =~= "9"@);
            assert(key_names(k)[0] == n);
        }
    }
}

// ---------------------------------------------------------------------------
// Laws on macOS key codes
// ---------------------------------------------------------------------------

/// No two keys share a macOS key code.
pub proof fn lemma_vkcodes_distinct(k1: Key, k2: Key)
    requires
        vkcode_of(k1) is Some,
        vkcode_of(k1) == vkcode_of(k2),
    ensures
        k1 == k2,
{
}

/// The key codes sampled for a modifier group are those of the very keys
/// that make the group active on the other platforms: left and right
/// Control, left and right Shift, Option and right Option (Alt, AltGr),
/// left and right Command; the right-Command group only the right one.
pub proof fn lemma_modifier_vkcodes_are_its_keys()
    ensures
        modifier_vkcodes(ModifierGroup::Ctrl) == seq![
            vkcode_of(Key::ControlLeft)->0,
            vkcode_of(Key::ControlRight)->0,
        ],
        modifier_vkcodes(ModifierGroup::Shift) == seq![
            vkcode_of(Key::ShiftLeft)->0,
            vkcode_of(Key::ShiftRight)->0,
        ],
        modifier_vkcodes(ModifierGroup::Alt) == seq![
            vkcode_of(Key::Alt)->0,
            vkcode_of(Key::AltGr)->0,
        ],
        modifier_vkcodes(ModifierGroup::Meta) == seq![
            vkcode_of(Key::MetaLeft)->0,
            vkcode_of(Key::MetaRight)->0,
        ],
        modifier_vkcodes(ModifierGroup::MetaRight) == seq![vkcode_of(Key::MetaRight)->0],
{
}

/// The device flag is checked exactly for the two Command keys: the right
/// one's bit for the right key, the left one's bit for the left key.
pub proof fn lemma_nx_flags_are_command_keys(k: Key)
    requires
        vkcode_of(k) is Some,
    ensures
        nx_flag_of(vkcode_of(k)->0) is Some <==> (k == Key::MetaLeft || k == Key::MetaRight),
        k == Key::MetaRight ==> nx_flag_of(vkcode_of(k)->0) == Some(NX_DEVICERCMDKEYMASK),
        k == Key::MetaLeft ==> nx_flag_of(vkcode_of(k)->0) == Some(NX_DEVICELCMDKEYMASK),
{
}

// ---------------------------------------------------------------------------
// Laws on modifier names
// ---------------------------------------------------------------------------

/// The (lowercased) names of each modifier group.
pub open spec fn modifier_names(m: ModifierGroup) -> Seq<Seq<char>> {
    match m {
        ModifierGroup::Ctrl => seq!["ctrl"@, "control"@],
        ModifierGroup::Shift => seq!["shift"@],
        ModifierGroup::Alt => seq!["alt"@, "option"@, "opt"@],
        ModifierGroup::Meta => seq!["meta"@, "cmd"@, "command"@, "win"@, "super"@],
        ModifierGroup::MetaRight => seq!["metacright"@, "rightcmd"@, "rcmd"@, "rightcommand"@, "cmdright"@],
    }
}

/// The characters of the modifier names.
proof fn lemma_modifier_name_literals()
    ensures
        "ctrl"@.len() == 4,
        "ctrl"@[0] == 'c',
        "ctrl"@[1] == 't',
        "ctrl"@[2] == 'r',
        "ctrl"@[3] == 'l',
        "control"@.len() == 7,
        "control"@[0] == 'c',
        "control"@[1] == 'o',
        "control"@[2] == 'n',
        "control"@[3] == 't',
        "control"@[4] == 'r',
        "control"@[5] == 'o',
        "control"@[6] == 'l',
        "shift"@.len() == 5,
        "shift"@[0] == 's',
        "shift"@[1] == 'h',
        "shift"@[2] == 'i',
        "shift"@[3] == 'f',
        "shift"@[4] == 't',
        "alt"@.len() == 3,
        "alt"@[0] == 'a',
        "alt"@[1] == 'l',
        "alt"@[2] == 't',
        "option"@.len() == 6,
        "option"@[0] == 'o',
        "option"@[1] == 'p',
        "option"@[2] == 't',
        "option"@[3] == 'i',
        "option"@[4] == 'o',
        "option"@[5] == 'n',
        "opt"@.len() == 3,
        "opt"@[0] == 'o',
        "opt"@[1] == 'p',
        "opt"@[2] == 't',
        "meta"@.len() == 4,
        "meta"@[0] == 'm',
        "meta"@[1] == 'e',
        "meta"@[2] == 't',
        "meta"@[3] == 'a',
        "cmd"@.len() == 3,
        "cmd"@[0] == 'c',
        "cmd"@[1] == 'm',
        "cmd"@[2] == 'd',
        "command"@.len() == 7,
        "command"@[0] == 'c',
        "command"@[1] == 'o',
        "command"@[2] == 'm',
        "command"@[3] == 'm',
        "command"@[4] == 'a',
        "command"@[5] == 'n',
        "command"@[6] == 'd',
        "win"@.len() == 3,
        "win"@[0] == 'w',
        "win"@[1] == 'i',
        "win"@[2] == 'n',
        "super"@.len() == 5,
        "super"@[0] == 's',
        "super"@[1] == 'u',
        "super"@[2] == 'p',
        "super"@[3] == 'e',
        "super"@[4] == 'r',
        "metacright"@.len() == 10,
        "metacright"@[0] == 'm',
        "metacright"@[1] == 'e',
        "metacright"@[2] == 't',
        "metacright"@[3] == 'a',
        "metacright"@[4] == 'c',
        "metacright"@[5] == 'r',
        "metacright"@[6] == 'i',
        "metacright"@[7] == 'g',
        "metacright"@[8] == 'h',
        "metacright"@[9] == 't',
        "rightcmd"@.len() == 8,
        "rightcmd"@[0] == 'r',
        "rightcmd"@[1] == 'i',
        "rightcmd"@[2] == 'g',
        "rightcmd"@[3] == 'h',
        "rightcmd"@[4] == 't',
        "rightcmd"@[5] == 'c',
        "rightcmd"@[6] == 'm',
        "rightcmd"@[7] == 'd',
        "rcmd"@.len() == 4,
        "rcmd"@[0] == 'r',
        "rcmd"@[1] == 'c',
        "rcmd"@[2] == 'm',
        "rcmd"@[3] == 'd',
        "rightcommand"@.len() == 12,
        "rightcommand"@[0] == 'r',
        "rightcommand"@[1] == 'i',
        "rightcommand"@[2] == 'g',
        "rightcommand"@[3] == 'h',
        "rightcommand"@[4] == 't',
        "rightcommand"@[5] == 'c',
        "rightcommand"@[6] == 'o',
        "rightcommand"@[7] == 'm',
        "rightcommand"@[8] == 'm',
        "rightcommand"@[9] == 'a',
        "rightcommand"@[10] == 'n',
        "rightcommand"@[11] == 'd',
        "cmdright"@.len() == 8,
        "cmdright"@[0] == 'c',
        "cmdright"@[1] == 'm',
        "cmdright"@[2] == 'd',
        "cmdright"@[3] == 'r',
        "cmdright"@[4] == 'i',
        "cmdright"@[5] == 'g',
        "cmdright"@[6] == 'h',
        "cmdright"@[7] == 't',
{
    reveal_strlit("ctrl");
    reveal_strlit("control");
    reveal_strlit("shift");
    reveal_strlit("alt");
    reveal_strlit("option");
    reveal_strlit("opt");
    reveal_strlit("meta");
    reveal_strlit("cmd");
    reveal_strlit("command");
    reveal_strlit("win");
    reveal_strlit("super");
    reveal_strlit("metacright");
    reveal_strlit("rightcmd");
    reveal_strlit("rcmd");
    reveal_strlit("rightcommand");
    reveal_strlit("cmdright");
}

/// Each name of a modifier group denotes that group (`cmd` the Command
/// group, `opt` the Alt group, ...), in whatever case it is written.
pub proof fn lemma_modifier_names_denote_their_group(m: ModifierGroup, i: int)
    requires
        0 <= i < modifier_names(m).len(),
    ensures
        modifier_named(modifier_names(m)[i]) == Some(m),
{
    lemma_modifier_name_literals();
}

/// A lowercased name denotes a modifier group only if it is one of that
/// group's names: no name is shared, and no other name is accepted.
pub proof fn lemma_modifier_names_are_exact(n: Seq<char>, m: ModifierGroup)
    requires
        modifier_named(n) == Some(m),
    ensures
        modifier_names(m).contains(n),
{
    lemma_modifier_name_literals();
    if n == "ctrl"@ {
        assert(modifier_names(m)[0] == n);
    }
    else if n == "control"@ {
        assert(modifier_names(m)[1] == n);
    }
    else if n == "shift"@ {
        assert(modifier_names(m)[0] == n);
    }
    else if n == "alt"@ {
        assert(modifier_names(m)[0] == n);
    }
    else if n == "option"@ {
        assert(modifier_names(m)[1] == n);
    }
    else if n == "opt"@ {
        assert(modifier_names(m)[2] == n);
    }
    else if n == "meta"@ {
        assert(modifier_names(m)[0] == n);
    }
    else if n == "cmd"@ {
        assert(modifier_names(m)[1] == n);
    }
    else if n == "command"@ {
        assert(modifier_names(m)[2] == n);
    }
    else if n == "win"@ {
        assert(modifier_names(m)[3] == n);
    }
    else if n == "super"@ {
        assert(modifier_names(m)[4] == n);
    }
    else if n == "metacright"@ {
        assert(modifier_names(m)[0] == n);
    }
    else if n == "rightcmd"@ {
        assert(modifier_names(m)[1] == n);
    }
    else if n == "rcmd"@ {
        assert(modifier_names(m)[2] == n);
    }
    else if n == "rightcommand"@ {
        assert(modifier_names(m)[3] == n);
    }
    else if n == "cmdright"@ {
        assert(modifier_names(m)[4] == n);
    }
}

} // verus!
