//! Key events: direction, modifier flags, and the conversions between
//! key names, key codes and characters.

use vstd::prelude::*;

use crate::error::RekeyError;
use crate::text::{ascii_lowercase, spec_lower};
use crate::vkeys::{char_code, spec_vkey_code, vkey_code_for_name};

verus! {

/// Raw-input keyboard message codes, as the OS delivers them.
pub const WM_KEYDOWN: u32 = 0x0100;
pub const WM_KEYUP: u32 = 0x0101;
pub const WM_SYSKEYDOWN: u32 = 0x0104;
pub const WM_SYSKEYUP: u32 = 0x0105;

/// Whether a key went down or came back up.
#[derive(PartialEq, Eq, Clone, Copy, Debug, Structural)]
pub enum KeyDirection {
    Down,
    Up,
}

impl KeyDirection {
    /// The lowercase text handed to script callbacks.
    pub fn as_lowercase_str(&self) -> (r: &'static str)
        ensures
            *self == KeyDirection::Down ==> r@ == "down"@,
            *self == KeyDirection::Up ==> r@ == "up"@,
    {
        match self {
            KeyDirection::Down => "down",
            KeyDirection::Up => "up",
        }
    }
}

/// Modifier flags attached to a key stroke.
#[derive(PartialEq, Eq, Clone, Copy, Debug, Structural)]
pub struct KeyboardModifiers {
    pub shift: bool,
    pub ctrl: bool,
    pub alt: bool,
    pub hankaku: bool,
}

/// What a key token resolves to: a key code plus the modifiers that are
/// needed to produce it.
#[derive(PartialEq, Eq, Clone, Copy, Debug, Structural)]
pub struct ToVirtualKeyResult {
    pub vkey: u16,
    pub shift: bool,
    pub ctrl: bool,
    pub alt: bool,
    pub hankaku: bool,
}

impl ToVirtualKeyResult {
    /// A table hit: the bare code, no modifiers.
    pub fn from_vkey(vkey: u16) -> (r: ToVirtualKeyResult)
        ensures
            r == (ToVirtualKeyResult { vkey, shift: false, ctrl: false, alt: false, hankaku: false }),
    {
        ToVirtualKeyResult { vkey, shift: false, ctrl: false, alt: false, hankaku: false }
    }
}

/// Direction of a hook stroke: bit 31 of the hook's lparam is the
/// transition state, clear on key-down.
pub open spec fn spec_direction_from_lparam(lparam: i64) -> KeyDirection {
    if (lparam >> 31) & 1 == 0 {
        KeyDirection::Down
    } else {
        KeyDirection::Up
    }
}

pub fn direction_from_lparam(lparam: i64) -> (r: KeyDirection)
    ensures
        r == spec_direction_from_lparam(lparam),
{
    if (lparam >> 31) & 1 == 0 {
        KeyDirection::Down
    } else {
        KeyDirection::Up
    }
}

/// Direction of a raw-input record: key-up messages mean up, everything
/// else (including unknown messages) means down.
pub open spec fn spec_direction_from_raw_message(msg: u32) -> KeyDirection {
    if msg == WM_KEYUP || msg == WM_SYSKEYUP {
        KeyDirection::Up
    } else {
        KeyDirection::Down
    }
}

pub fn direction_from_raw_message(msg: u32) -> (r: KeyDirection)
    ensures
        r == spec_direction_from_raw_message(msg),
{
    if msg == WM_KEYUP || msg == WM_SYSKEYUP {
        KeyDirection::Up
    } else {
        KeyDirection::Down
    }
}

/// Resolves a key token against the table, case-insensitively. A token
/// the table does not know is a chord-parse failure; the caller may still
/// consult the OS keyboard layout for single characters.
pub fn to_virtual_key(s: &str) -> (r: Result<ToVirtualKeyResult, RekeyError>)
    ensures
        r is Ok <==> spec_vkey_code(spec_lower(s@)) is Some,
        r matches Ok(v) ==> v == (ToVirtualKeyResult {
            vkey: spec_vkey_code(spec_lower(s@))->Some_0,
            shift: false,
            ctrl: false,
            alt: false,
            hankaku: false,
        }),
        r matches Err(e) ==> e matches RekeyError::ChordParseError(expr) && expr@ == s@,
{
    let lower = ascii_lowercase(s);
    match vkey_code_for_name(lower.as_str()) {
        Some(code) => Ok(ToVirtualKeyResult::from_vkey(code)),
        None => Err(RekeyError::ChordParseError(String::from_str(s))),
    }
}

/// Decodes the packed result of the OS layout scan for one character:
/// the low byte is the key code, the high byte holds the modifier flags;
/// a negative byte means the character cannot be typed on the layout.
pub open spec fn spec_vkey_from_scan(scan: u16) -> Option<ToVirtualKeyResult> {
    let low = scan & 0xFF;
    let high = (scan >> 8) & 0xFF;
    if low < 0x80 && high < 0x80 {
        Some(ToVirtualKeyResult {
            vkey: low,
            shift: high & 1 == 1,
            ctrl: high & 2 == 2,
            alt: high & 4 == 4,
            hankaku: high & 8 == 8,
        })
    } else {
        None
    }
}

pub fn vkey_from_scan(scan: u16) -> (r: Option<ToVirtualKeyResult>)
    ensures
        r == spec_vkey_from_scan(scan),
{
    let low = scan & 0xFF;
    let high = (scan >> 8) & 0xFF;
    if low < 0x80 && high < 0x80 {
        Some(ToVirtualKeyResult {
            vkey: low,
            shift: high & 1 == 1,
            ctrl: high & 2 == 2,
            alt: high & 4 == 4,
            hankaku: high & 8 == 8,
        })
    } else {
        None
    }
}

/// The printable character of a key code, when there is one: digits,
/// numpad digits and letters (as lowercase).
pub open spec fn spec_char_from_vcode(vkey_code: u16) -> Option<char> {
    if 0x30 <= vkey_code && vkey_code <= 0x39 {
        Some((0x30 + (vkey_code - 0x30)) as u8 as char)
    } else if 0x60 <= vkey_code && vkey_code <= 0x69 {
        Some((0x30 + (vkey_code - 0x60)) as u8 as char)
    } else if 0x41 <= vkey_code && vkey_code <= 0x5A {
        Some((0x61 + (vkey_code - 0x41)) as u8 as char)
    } else {
        None
    }
}

pub fn char_from_vcode(vkey_code: u16) -> (r: Option<char>)
    ensures
        r == spec_char_from_vcode(vkey_code),
{
    if 0x30 <= vkey_code && vkey_code <= 0x39 {
        Some(((vkey_code - 0x30) as u8 + 0x30) as char)
    } else if 0x60 <= vkey_code && vkey_code <= 0x69 {
        Some(((vkey_code - 0x60) as u8 + 0x30) as char)
    } else if 0x41 <= vkey_code && vkey_code <= 0x5A {
        Some(((vkey_code - 0x41) as u8 + 0x61) as char)
    } else {
        None
    }
}

/// The two facts a script sees of a key's state: bit 15 of the OS
/// key-state word says the key is down, bit 0 says it is toggled.
#[derive(PartialEq, Eq, Clone, Copy, Debug, Structural)]
pub struct KeyState {
    pub down: bool,
    pub toggled: bool,
}

pub open spec fn spec_decode_key_state(bits: u32) -> KeyState {
    KeyState { down: bits & 0x8000 == 0x8000, toggled: bits & 1 == 1 }
}

pub fn decode_key_state(bits: u32) -> (r: KeyState)
    ensures
        r == spec_decode_key_state(bits),
{
    KeyState { down: bits & 0x8000 == 0x8000, toggled: bits & 1 == 1 }
}

/// For a letter key, the derived character is that letter, lower-cased:
/// resolving the letter's name gives a code whose character reading is
/// the name again.
pub proof fn lemma_letter_roundtrip(c: char)
    requires
        'a' <= c && c <= 'z',
    ensures
        char_code(c) is Some,
        spec_char_from_vcode(char_code(c)->Some_0) == Some(c),
{
}

} // verus!
