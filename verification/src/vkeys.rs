//! The canonical virtual-key table: case-insensitive lowercase names on
//! one side, key codes in 0..=0xFF on the other. Letters, digits and the
//! numpad digits follow their character arithmetic; everything else is
//! listed by name. Names are unique, codes of named entries are unique,
//! and the inverse map exists (`lemma_vkey_inverse`).

use vstd::prelude::*;
use vstd::string::StringExecFns;

use crate::text::str_eq;

verus! {

/// One entry of the table: a canonical lowercase name and its key code.
pub struct Vkey {
    pub name: String,
    pub code: u16,
}

pub open spec fn word_code(name: Seq<char>) -> Option<u16> {
    if name == "backspace"@ {
        Some(0x08u16)
    } else if name == "tab"@ {
        Some(0x09u16)
    } else if name == "clear"@ {
        Some(0x0Cu16)
    } else if name == "enter"@ {
        Some(0x0Du16)
    } else if name == "shift"@ {
        Some(0x10u16)
    } else if name == "ctrl"@ {
        Some(0x11u16)
    } else if name == "alt"@ {
        Some(0x12u16)
    } else if name == "pause"@ {
        Some(0x13u16)
    } else if name == "caps_lock"@ {
        Some(0x14u16)
    } else if name == "esc"@ {
        Some(0x1Bu16)
    } else if name == "space"@ {
        Some(0x20u16)
    } else if name == "page_up"@ {
        Some(0x21u16)
    } else if name == "page_down"@ {
        Some(0x22u16)
    } else if name == "end"@ {
        Some(0x23u16)
    } else if name == "home"@ {
        Some(0x24u16)
    } else if name == "left"@ {
        Some(0x25u16)
    } else if name == "up"@ {
        Some(0x26u16)
    } else if name == "right"@ {
        Some(0x27u16)
    } else if name == "down"@ {
        Some(0x28u16)
    } else if name == "select"@ {
        Some(0x29u16)
    } else if name == "print"@ {
        Some(0x2Au16)
    } else if name == "execute"@ {
        Some(0x2Bu16)
    } else if name == "print_screen"@ {
        Some(0x2Cu16)
    } else if name == "insert"@ {
        Some(0x2Du16)
    } else if name == "delete"@ {
        Some(0x2Eu16)
    } else if name == "help"@ {
        Some(0x2Fu16)
    } else if name == "windows"@ {
        Some(0x5Bu16)
    } else if name == "rwindows"@ {
        Some(0x5Cu16)
    } else if name == "sleep"@ {
        Some(0x5Fu16)
    } else if name == "multiply"@ {
        Some(0x6Au16)
    } else if name == "add"@ {
        Some(0x6Bu16)
    } else if name == "separator"@ {
        Some(0x6Cu16)
    } else if name == "subtract"@ {
        Some(0x6Du16)
    } else if name == "decimal"@ {
        Some(0x6Eu16)
    } else if name == "divide"@ {
        Some(0x6Fu16)
    } else if name == "num_lock"@ {
        Some(0x90u16)
    } else if name == "scroll_lock"@ {
        Some(0x91u16)
    } else if name == "lshift"@ {
        Some(0xA0u16)
    } else if name == "rshift"@ {
        Some(0xA1u16)
    } else if name == "lcontrol"@ {
        Some(0xA2u16)
    } else if name == "rcontrol"@ {
        Some(0xA3u16)
    } else if name == "lalt"@ {
        Some(0xA4u16)
    } else if name == "ralt"@ {
        Some(0xA5u16)
    } else if name == "browser_back"@ {
        Some(0xA6u16)
    } else if name == "browser_forward"@ {
        Some(0xA7u16)
    } else if name == "browser_refresh"@ {
        Some(0xA8u16)
    } else if name == "browser_stop"@ {
        Some(0xA9u16)
    } else if name == "browser_search"@ {
        Some(0xAAu16)
    } else if name == "browser_favorites"@ {
        Some(0xABu16)
    } else if name == "browser_home"@ {
        Some(0xACu16)
    } else if name == "volume_mute"@ {
        Some(0xADu16)
    } else if name == "volume_down"@ {
        Some(0xAEu16)
    } else if name == "volume_up"@ {
        Some(0xAFu16)
    } else if name == "media_next_track"@ {
        Some(0xB0u16)
    } else if name == "media_prev_track"@ {
        Some(0xB1u16)
    } else if name == "media_stop"@ {
        Some(0xB2u16)
    } else if name == "media_play_pause"@ {
        Some(0xB3u16)
    } else if name == "launch_mail"@ {
        Some(0xB4u16)
    } else if name == "launch_media_select"@ {
        Some(0xB5u16)
    } else if name == "launch_app_1"@ {
        Some(0xB6u16)
    } else if name == "launch_app_2"@ {
        Some(0xB7u16)
    } else if name == "play"@ {
        Some(0xFAu16)
    } else if name == "zoom"@ {
        Some(0xFBu16)
    } else {
        None
    }
}

pub open spec fn numpad_code(name: Seq<char>) -> Option<u16> {
    if name == "numpad0"@ {
        Some(0x60u16)
    } else if name == "numpad1"@ {
        Some(0x61u16)
    } else if name == "numpad2"@ {
        Some(0x62u16)
    } else if name == "numpad3"@ {
        Some(0x63u16)
    } else if name == "numpad4"@ {
        Some(0x64u16)
    } else if name == "numpad5"@ {
        Some(0x65u16)
    } else if name == "numpad6"@ {
        Some(0x66u16)
    } else if name == "numpad7"@ {
        Some(0x67u16)
    } else if name == "numpad8"@ {
        Some(0x68u16)
    } else if name == "numpad9"@ {
        Some(0x69u16)
    } else {
        None
    }
}

pub open spec fn fkey_code(name: Seq<char>) -> Option<u16> {
    if name == "f1"@ {
        Some(0x70u16)
    } else if name == "f2"@ {
        Some(0x71u16)
    } else if name == "f3"@ {
        Some(0x72u16)
    } else if name == "f4"@ {
        Some(0x73u16)
    } else if name == "f5"@ {
        Some(0x74u16)
    } else if name == "f6"@ {
        Some(0x75u16)
    } else if name == "f7"@ {
        Some(0x76u16)
    } else if name == "f8"@ {
        Some(0x77u16)
    } else if name == "f9"@ {
        Some(0x78u16)
    } else if name == "f10"@ {
        Some(0x79u16)
    } else if name == "f11"@ {
        Some(0x7Au16)
    } else if name == "f12"@ {
        Some(0x7Bu16)
    } else if name == "f13"@ {
        Some(0x7Cu16)
    } else if name == "f14"@ {
        Some(0x7Du16)
    } else if name == "f15"@ {
        Some(0x7Eu16)
    } else if name == "f16"@ {
        Some(0x7Fu16)
    } else if name == "f17"@ {
        Some(0x80u16)
    } else if name == "f18"@ {
        Some(0x81u16)
    } else if name == "f19"@ {
        Some(0x82u16)
    } else if name == "f20"@ {
        Some(0x83u16)
    } else if name == "f21"@ {
        Some(0x84u16)
    } else if name == "f22"@ {
        Some(0x85u16)
    } else if name == "f23"@ {
        Some(0x86u16)
    } else if name == "f24"@ {
        Some(0x87u16)
    } else {
        None
    }
}

/// Code of a single-character key name: letters map into the letter-key
/// range, digits into the digit-key range.
pub open spec fn char_code(c: char) -> Option<u16> {
    if 'a' <= c && c <= 'z' {
        Some((0x41 + (c as int - 'a' as int)) as u16)
    } else if '0' <= c && c <= '9' {
        Some((0x30 + (c as int - '0' as int)) as u16)
    } else {
        None
    }
}

/// The whole name-to-code side of the table, over an already
/// lower-cased name.
pub open spec fn spec_vkey_code(name: Seq<char>) -> Option<u16> {
    if word_code(name) is Some {
        word_code(name)
    } else if numpad_code(name) is Some {
        numpad_code(name)
    } else if fkey_code(name) is Some {
        fkey_code(name)
    } else if name.len() == 1 {
        char_code(name[0])
    } else {
        None
    }
}

pub open spec fn word_name(code: u16) -> Option<Seq<char>> {
    if code == 0x08u16 {
        Some("backspace"@)
    } else if code == 0x09u16 {
        Some("tab"@)
    } else if code == 0x0Cu16 {
        Some("clear"@)
    } else if code == 0x0Du16 {
        Some("enter"@)
    } else if code == 0x10u16 {
        Some("shift"@)
    } else if code == 0x11u16 {
        Some("ctrl"@)
    } else if code == 0x12u16 {
        Some("alt"@)
    } else if code == 0x13u16 {
        Some("pause"@)
    } else if code == 0x14u16 {
        Some("caps_lock"@)
    } else if code == 0x1Bu16 {
        Some("esc"@)
    } else if code == 0x20u16 {
        Some("space"@)
    } else if code == 0x21u16 {
        Some("page_up"@)
    } else if code == 0x22u16 {
        Some("page_down"@)
    } else if code == 0x23u16 {
        Some("end"@)
    } else if code == 0x24u16 {
        Some("home"@)
    } else if code == 0x25u16 {
        Some("left"@)
    } else if code == 0x26u16 {
        Some("up"@)
    } else if code == 0x27u16 {
        Some("right"@)
    } else if code == 0x28u16 {
        Some("down"@)
    } else if code == 0x29u16 {
        Some("select"@)
    } else if code == 0x2Au16 {
        Some("print"@)
    } else if code == 0x2Bu16 {
        Some("execute"@)
    } else if code == 0x2Cu16 {
        Some("print_screen"@)
    } else if code == 0x2Du16 {
        Some("insert"@)
    } else if code == 0x2Eu16 {
        Some("delete"@)
    } else if code == 0x2Fu16 {
        Some("help"@)
    } else if code == 0x5Bu16 {
        Some("windows"@)
    } else if code == 0x5Cu16 {
        Some("rwindows"@)
    } else if code == 0x5Fu16 {
        Some("sleep"@)
    } else if code == 0x6Au16 {
        Some("multiply"@)
    } else if code == 0x6Bu16 {
        Some("add"@)
    } else if code == 0x6Cu16 {
        Some("separator"@)
    } else if code == 0x6Du16 {
        Some("subtract"@)
    } else if code == 0x6Eu16 {
        Some("decimal"@)
    } else if code == 0x6Fu16 {
        Some("divide"@)
    } else if code == 0x90u16 {
        Some("num_lock"@)
    } else if code == 0x91u16 {
        Some("scroll_lock"@)
    } else if code == 0xA0u16 {
        Some("lshift"@)
    } else if code == 0xA1u16 {
        Some("rshift"@)
    } else if code == 0xA2u16 {
        Some("lcontrol"@)
    } else if code == 0xA3u16 {
        Some("rcontrol"@)
    } else if code == 0xA4u16 {
        Some("lalt"@)
    } else if code == 0xA5u16 {
        Some("ralt"@)
    } else if code == 0xA6u16 {
        Some("browser_back"@)
    } else if code == 0xA7u16 {
        Some("browser_forward"@)
    } else if code == 0xA8u16 {
        Some("browser_refresh"@)
    } else if code == 0xA9u16 {
        Some("browser_stop"@)
    } else if code == 0xAAu16 {
        Some("browser_search"@)
    } else if code == 0xABu16 {
        Some("browser_favorites"@)
    } else if code == 0xACu16 {
        Some("browser_home"@)
    } else if code == 0xADu16 {
        Some("volume_mute"@)
    } else if code == 0xAEu16 {
        Some("volume_down"@)
    } else if code == 0xAFu16 {
        Some("volume_up"@)
    } else if code == 0xB0u16 {
        Some("media_next_track"@)
    } else if code == 0xB1u16 {
        Some("media_prev_track"@)
    } else if code == 0xB2u16 {
        Some("media_stop"@)
    } else if code == 0xB3u16 {
        Some("media_play_pause"@)
    } else if code == 0xB4u16 {
        Some("launch_mail"@)
    } else if code == 0xB5u16 {
        Some("launch_media_select"@)
    } else if code == 0xB6u16 {
        Some("launch_app_1"@)
    } else if code == 0xB7u16 {
        Some("launch_app_2"@)
    } else if code == 0xFAu16 {
        Some("play"@)
    } else if code == 0xFBu16 {
        Some("zoom"@)
    } else {
        None
    }
}

pub open spec fn numpad_name(code: u16) -> Option<Seq<char>> {
    if code == 0x60u16 {
        Some("numpad0"@)
    } else if code == 0x61u16 {
        Some("numpad1"@)
    } else if code == 0x62u16 {
        Some("numpad2"@)
    } else if code == 0x63u16 {
        Some("numpad3"@)
    } else if code == 0x64u16 {
        Some("numpad4"@)
    } else if code == 0x65u16 {
        Some("numpad5"@)
    } else if code == 0x66u16 {
        Some("numpad6"@)
    } else if code == 0x67u16 {
        Some("numpad7"@)
    } else if code == 0x68u16 {
        Some("numpad8"@)
    } else if code == 0x69u16 {
        Some("numpad9"@)
    } else {
        None
    }
}

pub open spec fn fkey_name(code: u16) -> Option<Seq<char>> {
    if code == 0x70u16 {
        Some("f1"@)
    } else if code == 0x71u16 {
        Some("f2"@)
    } else if code == 0x72u16 {
        Some("f3"@)
    } else if code == 0x73u16 {
        Some("f4"@)
    } else if code == 0x74u16 {
        Some("f5"@)
    } else if code == 0x75u16 {
        Some("f6"@)
    } else if code == 0x76u16 {
        Some("f7"@)
    } else if code == 0x77u16 {
        Some("f8"@)
    } else if code == 0x78u16 {
        Some("f9"@)
    } else if code == 0x79u16 {
        Some("f10"@)
    } else if code == 0x7Au16 {
        Some("f11"@)
    } else if code == 0x7Bu16 {
        Some("f12"@)
    } else if code == 0x7Cu16 {
        Some("f13"@)
    } else if code == 0x7Du16 {
        Some("f14"@)
    } else if code == 0x7Eu16 {
        Some("f15"@)
    } else if code == 0x7Fu16 {
        Some("f16"@)
    } else if code == 0x80u16 {
        Some("f17"@)
    } else if code == 0x81u16 {
        Some("f18"@)
    } else if code == 0x82u16 {
        Some("f19"@)
    } else if code == 0x83u16 {
        Some("f20"@)
    } else if code == 0x84u16 {
        Some("f21"@)
    } else if code == 0x85u16 {
        Some("f22"@)
    } else if code == 0x86u16 {
        Some("f23"@)
    } else if code == 0x87u16 {
        Some("f24"@)
    } else {
        None
    }
}

/// Name of a letter-key or digit-key code: the single lowercase character.
pub open spec fn char_name(code: u16) -> Option<Seq<char>> {
    if 0x41 <= code && code <= 0x5A {
        Some(seq![((code - 0x41 + 'a' as int) as u8) as char])
    } else if 0x30 <= code && code <= 0x39 {
        Some(seq![((code - 0x30 + '0' as int) as u8) as char])
    } else {
        None
    }
}

/// The whole code-to-name side of the table.
pub open spec fn spec_vkey_name(code: u16) -> Option<Seq<char>> {
    if word_name(code) is Some {
        word_name(code)
    } else if numpad_name(code) is Some {
        numpad_name(code)
    } else if fkey_name(code) is Some {
        fkey_name(code)
    } else {
        char_name(code)
    }
}

#[verifier::rlimit(60)]
fn lookup_word_code(name: &str) -> (r: Option<u16>)
    ensures
        r == word_code(name@),
{
    if str_eq(name, "backspace") {
        Some(0x08u16)
    } else if str_eq(name, "tab") {
        Some(0x09u16)
    } else if str_eq(name, "clear") {
        Some(0x0Cu16)
    } else if str_eq(name, "enter") {
        Some(0x0Du16)
    } else if str_eq(name, "shift") {
        Some(0x10u16)
    } else if str_eq(name, "ctrl") {
        Some(0x11u16)
    } else if str_eq(name, "alt") {
        Some(0x12u16)
    } else if str_eq(name, "pause") {
        Some(0x13u16)
    } else if str_eq(name, "caps_lock") {
        Some(0x14u16)
    } else if str_eq(name, "esc") {
        Some(0x1Bu16)
    } else if str_eq(name, "space") {
        Some(0x20u16)
    } else if str_eq(name, "page_up") {
        Some(0x21u16)
    } else if str_eq(name, "page_down") {
        Some(0x22u16)
    } else if str_eq(name, "end") {
        Some(0x23u16)
    } else if str_eq(name, "home") {
        Some(0x24u16)
    } else if str_eq(name, "left") {
        Some(0x25u16)
    } else if str_eq(name, "up") {
        Some(0x26u16)
    } else if str_eq(name, "right") {
        Some(0x27u16)
    } else if str_eq(name, "down") {
        Some(0x28u16)
    } else if str_eq(name, "select") {
        Some(0x29u16)
    } else if str_eq(name, "print") {
        Some(0x2Au16)
    } else if str_eq(name, "execute") {
        Some(0x2Bu16)
    } else if str_eq(name, "print_screen") {
        Some(0x2Cu16)
    } else if str_eq(name, "insert") {
        Some(0x2Du16)
    } else if str_eq(name, "delete") {
        Some(0x2Eu16)
    } else if str_eq(name, "help") {
        Some(0x2Fu16)
    } else if str_eq(name, "windows") {
        Some(0x5Bu16)
    } else if str_eq(name, "rwindows") {
        Some(0x5Cu16)
    } else if str_eq(name, "sleep") {
        Some(0x5Fu16)
    } else if str_eq(name, "multiply") {
        Some(0x6Au16)
    } else if str_eq(name, "add") {
        Some(0x6Bu16)
    } else if str_eq(name, "separator") {
        Some(0x6Cu16)
    } else if str_eq(name, "subtract") {
        Some(0x6Du16)
    } else if str_eq(name, "decimal") {
        Some(0x6Eu16)
    } else if str_eq(name, "divide") {
        Some(0x6Fu16)
    } else if str_eq(name, "num_lock") {
        Some(0x90u16)
    } else if str_eq(name, "scroll_lock") {
        Some(0x91u16)
    } else if str_eq(name, "lshift") {
        Some(0xA0u16)
    } else if str_eq(name, "rshift") {
        Some(0xA1u16)
    } else if str_eq(name, "lcontrol") {
        Some(0xA2u16)
    } else if str_eq(name, "rcontrol") {
        Some(0xA3u16)
    } else if str_eq(name, "lalt") {
        Some(0xA4u16)
    } else if str_eq(name, "ralt") {
        Some(0xA5u16)
    } else if str_eq(name, "browser_back") {
        Some(0xA6u16)
    } else if str_eq(name, "browser_forward") {
        Some(0xA7u16)
    } else if str_eq(name, "browser_refresh") {
        Some(0xA8u16)
    } else if str_eq(name, "browser_stop") {
        Some(0xA9u16)
    } else if str_eq(name, "browser_search") {
        Some(0xAAu16)
    } else if str_eq(name, "browser_favorites") {
        Some(0xABu16)
    } else if str_eq(name, "browser_home") {
        Some(0xACu16)
    } else if str_eq(name, "volume_mute") {
        Some(0xADu16)
    } else if str_eq(name, "volume_down") {
        Some(0xAEu16)
    } else if str_eq(name, "volume_up") {
        Some(0xAFu16)
    } else if str_eq(name, "media_next_track") {
        Some(0xB0u16)
    } else if str_eq(name, "media_prev_track") {
        Some(0xB1u16)
    } else if str_eq(name, "media_stop") {
        Some(0xB2u16)
    } else if str_eq(name, "media_play_pause") {
        Some(0xB3u16)
    } else if str_eq(name, "launch_mail") {
        Some(0xB4u16)
    } else if str_eq(name, "launch_media_select") {
        Some(0xB5u16)
    } else if str_eq(name, "launch_app_1") {
        Some(0xB6u16)
    } else if str_eq(name, "launch_app_2") {
        Some(0xB7u16)
    } else if str_eq(name, "play") {
        Some(0xFAu16)
    } else if str_eq(name, "zoom") {
        Some(0xFBu16)
    } else {
        None
    }
}

#[verifier::rlimit(20)]
fn lookup_numpad_code(name: &str) -> (r: Option<u16>)
    ensures
        r == numpad_code(name@),
{
    if str_eq(name, "numpad0") {
        Some(0x60u16)
    } else if str_eq(name, "numpad1") {
        Some(0x61u16)
    } else if str_eq(name, "numpad2") {
        Some(0x62u16)
    } else if str_eq(name, "numpad3") {
        Some(0x63u16)
    } else if str_eq(name, "numpad4") {
        Some(0x64u16)
    } else if str_eq(name, "numpad5") {
        Some(0x65u16)
    } else if str_eq(name, "numpad6") {
        Some(0x66u16)
    } else if str_eq(name, "numpad7") {
        Some(0x67u16)
    } else if str_eq(name, "numpad8") {
        Some(0x68u16)
    } else if str_eq(name, "numpad9") {
        Some(0x69u16)
    } else {
        None
    }
}

#[verifier::rlimit(40)]
fn lookup_fkey_code(name: &str) -> (r: Option<u16>)
    ensures
        r == fkey_code(name@),
{
    if str_eq(name, "f1") {
        Some(0x70u16)
    } else if str_eq(name, "f2") {
        Some(0x71u16)
    } else if str_eq(name, "f3") {
        Some(0x72u16)
    } else if str_eq(name, "f4") {
        Some(0x73u16)
    } else if str_eq(name, "f5") {
        Some(0x74u16)
    } else if str_eq(name, "f6") {
        Some(0x75u16)
    } else if str_eq(name, "f7") {
        Some(0x76u16)
    } else if str_eq(name, "f8") {
        Some(0x77u16)
    } else if str_eq(name, "f9") {
        Some(0x78u16)
    } else if str_eq(name, "f10") {
        Some(0x79u16)
    } else if str_eq(name, "f11") {
        Some(0x7Au16)
    } else if str_eq(name, "f12") {
        Some(0x7Bu16)
    } else if str_eq(name, "f13") {
        Some(0x7Cu16)
    } else if str_eq(name, "f14") {
        Some(0x7Du16)
    } else if str_eq(name, "f15") {
        Some(0x7Eu16)
    } else if str_eq(name, "f16") {
        Some(0x7Fu16)
    } else if str_eq(name, "f17") {
        Some(0x80u16)
    } else if str_eq(name, "f18") {
        Some(0x81u16)
    } else if str_eq(name, "f19") {
        Some(0x82u16)
    } else if str_eq(name, "f20") {
        Some(0x83u16)
    } else if str_eq(name, "f21") {
        Some(0x84u16)
    } else if str_eq(name, "f22") {
        Some(0x85u16)
    } else if str_eq(name, "f23") {
        Some(0x86u16)
    } else if str_eq(name, "f24") {
        Some(0x87u16)
    } else {
        None
    }
}

/// Looks a lower-cased name up in the table.
pub fn vkey_code_for_name(name: &str) -> (r: Option<u16>)
    ensures
        r == spec_vkey_code(name@),
{
    if let Some(c) = lookup_word_code(name) {
        return Some(c);
    }
    if let Some(c) = lookup_numpad_code(name) {
        return Some(c);
    }
    if let Some(c) = lookup_fkey_code(name) {
        return Some(c);
    }
    if name.unicode_len() == 1 {
        let c = name.get_char(0);
        if 'a' <= c && c <= 'z' {
            let cu: u16 = (c as u32) as u16;
            return Some(0x41 + (cu - 97));
        }
        if '0' <= c && c <= '9' {
            let cu: u16 = (c as u32) as u16;
            return Some(0x30 + (cu - 48));
        }
        return None;
    }
    None
}

#[verifier::rlimit(60)]
fn lookup_word_name(code: u16) -> (r: Option<String>)
    ensures
        match r {
            Some(s) => word_name(code) == Some(s@),
            None => word_name(code) is None,
        },
{
    if code == 0x08 {
        Some(String::from_str("backspace"))
    } else if code == 0x09 {
        Some(String::from_str("tab"))
    } else if code == 0x0C {
        Some(String::from_str("clear"))
    } else if code == 0x0D {
        Some(String::from_str("enter"))
    } else if code == 0x10 {
        Some(String::from_str("shift"))
    } else if code == 0x11 {
        Some(String::from_str("ctrl"))
    } else if code == 0x12 {
        Some(String::from_str("alt"))
    } else if code == 0x13 {
        Some(String::from_str("pause"))
    } else if code == 0x14 {
        Some(String::from_str("caps_lock"))
    } else if code == 0x1B {
        Some(String::from_str("esc"))
    } else if code == 0x20 {
        Some(String::from_str("space"))
    } else if code == 0x21 {
        Some(String::from_str("page_up"))
    } else if code == 0x22 {
        Some(String::from_str("page_down"))
    } else if code == 0x23 {
        Some(String::from_str("end"))
    } else if code == 0x24 {
        Some(String::from_str("home"))
    } else if code == 0x25 {
        Some(String::from_str("left"))
    } else if code == 0x26 {
        Some(String::from_str("up"))
    } else if code == 0x27 {
        Some(String::from_str("right"))
    } else if code == 0x28 {
        Some(String::from_str("down"))
    } else if code == 0x29 {
        Some(String::from_str("select"))
    } else if code == 0x2A {
        Some(String::from_str("print"))
    } else if code == 0x2B {
        Some(String::from_str("execute"))
    } else if code == 0x2C {
        Some(String::from_str("print_screen"))
    } else if code == 0x2D {
        Some(String::from_str("insert"))
    } else if code == 0x2E {
        Some(String::from_str("delete"))
    } else if code == 0x2F {
        Some(String::from_str("help"))
    } else if code == 0x5B {
        Some(String::from_str("windows"))
    } else if code == 0x5C {
        Some(String::from_str("rwindows"))
    } else if code == 0x5F {
        Some(String::from_str("sleep"))
    } else if code == 0x6A {
        Some(String::from_str("multiply"))
    } else if code == 0x6B {
        Some(String::from_str("add"))
    } else if code == 0x6C {
        Some(String::from_str("separator"))
    } else if code == 0x6D {
        Some(String::from_str("subtract"))
    } else if code == 0x6E {
        Some(String::from_str("decimal"))
    } else if code == 0x6F {
        Some(String::from_str("divide"))
    } else if code == 0x90 {
        Some(String::from_str("num_lock"))
    } else if code == 0x91 {
        Some(String::from_str("scroll_lock"))
    } else if code == 0xA0 {
        Some(String::from_str("lshift"))
    } else if code == 0xA1 {
        Some(String::from_str("rshift"))
    } else if code == 0xA2 {
        Some(String::from_str("lcontrol"))
    } else if code == 0xA3 {
        Some(String::from_str("rcontrol"))
    } else if code == 0xA4 {
        Some(String::from_str("lalt"))
    } else if code == 0xA5 {
        Some(String::from_str("ralt"))
    } else if code == 0xA6 {
        Some(String::from_str("browser_back"))
    } else if code == 0xA7 {
        Some(String::from_str("browser_forward"))
    } else if code == 0xA8 {
        Some(String::from_str("browser_refresh"))
    } else if code == 0xA9 {
        Some(String::from_str("browser_stop"))
    } else if code == 0xAA {
        Some(String::from_str("browser_search"))
    } else if code == 0xAB {
        Some(String::from_str("browser_favorites"))
    } else if code == 0xAC {
        Some(String::from_str("browser_home"))
    } else if code == 0xAD {
        Some(String::from_str("volume_mute"))
    } else if code == 0xAE {
        Some(String::from_str("volume_down"))
    } else if code == 0xAF {
        Some(String::from_str("volume_up"))
    } else if code == 0xB0 {
        Some(String::from_str("media_next_track"))
    } else if code == 0xB1 {
        Some(String::from_str("media_prev_track"))
    } else if code == 0xB2 {
        Some(String::from_str("media_stop"))
    } else if code == 0xB3 {
        Some(String::from_str("media_play_pause"))
    } else if code == 0xB4 {
        Some(String::from_str("launch_mail"))
    } else if code == 0xB5 {
        Some(String::from_str("launch_media_select"))
    } else if code == 0xB6 {
        Some(String::from_str("launch_app_1"))
    } else if code == 0xB7 {
        Some(String::from_str("launch_app_2"))
    } else if code == 0xFA {
        Some(String::from_str("play"))
    } else if code == 0xFB {
        Some(String::from_str("zoom"))
    } else {
        None
    }
}

#[verifier::rlimit(20)]
fn lookup_numpad_name(code: u16) -> (r: Option<String>)
    ensures
        match r {
            Some(s) => numpad_name(code) == Some(s@),
            None => numpad_name(code) is None,
        },
{
    if code == 0x60 {
        Some(String::from_str("numpad0"))
    } else if code == 0x61 {
        Some(String::from_str("numpad1"))
    } else if code == 0x62 {
        Some(String::from_str("numpad2"))
    } else if code == 0x63 {
        Some(String::from_str("numpad3"))
    } else if code == 0x64 {
        Some(String::from_str("numpad4"))
    } else if code == 0x65 {
        Some(String::from_str("numpad5"))
    } else if code == 0x66 {
        Some(String::from_str("numpad6"))
    } else if code == 0x67 {
        Some(String::from_str("numpad7"))
    } else if code == 0x68 {
        Some(String::from_str("numpad8"))
    } else if code == 0x69 {
        Some(String::from_str("numpad9"))
    } else {
        None
    }
}

#[verifier::rlimit(40)]
fn lookup_fkey_name(code: u16) -> (r: Option<String>)
    ensures
        match r {
            Some(s) => fkey_name(code) == Some(s@),
            None => fkey_name(code) is None,
        },
{
    if code == 0x70 {
        Some(String::from_str("f1"))
    } else if code == 0x71 {
        Some(String::from_str("f2"))
    } else if code == 0x72 {
        Some(String::from_str("f3"))
    } else if code == 0x73 {
        Some(String::from_str("f4"))
    } else if code == 0x74 {
        Some(String::from_str("f5"))
    } else if code == 0x75 {
        Some(String::from_str("f6"))
    } else if code == 0x76 {
        Some(String::from_str("f7"))
    } else if code == 0x77 {
        Some(String::from_str("f8"))
    } else if code == 0x78 {
        Some(String::from_str("f9"))
    } else if code == 0x79 {
        Some(String::from_str("f10"))
    } else if code == 0x7A {
        Some(String::from_str("f11"))
    } else if code == 0x7B {
        Some(String::from_str("f12"))
    } else if code == 0x7C {
        Some(String::from_str("f13"))
    } else if code == 0x7D {
        Some(String::from_str("f14"))
    } else if code == 0x7E {
        Some(String::from_str("f15"))
    } else if code == 0x7F {
        Some(String::from_str("f16"))
    } else if code == 0x80 {
        Some(String::from_str("f17"))
    } else if code == 0x81 {
        Some(String::from_str("f18"))
    } else if code == 0x82 {
        Some(String::from_str("f19"))
    } else if code == 0x83 {
        Some(String::from_str("f20"))
    } else if code == 0x84 {
        Some(String::from_str("f21"))
    } else if code == 0x85 {
        Some(String::from_str("f22"))
    } else if code == 0x86 {
        Some(String::from_str("f23"))
    } else if code == 0x87 {
        Some(String::from_str("f24"))
    } else {
        None
    }
}

/// Looks a code up in the inverse side of the table.
pub fn vkey_name_for_code(code: u16) -> (r: Option<String>)
    ensures
        match r {
            Some(s) => spec_vkey_name(code) == Some(s@),
            None => spec_vkey_name(code) is None,
        },
{
    if let Some(s) = lookup_word_name(code) {
        return Some(s);
    }
    if let Some(s) = lookup_numpad_name(code) {
        return Some(s);
    }
    if let Some(s) = lookup_fkey_name(code) {
        return Some(s);
    }
    if 0x41 <= code && code <= 0x5A {
        let c = (((code - 0x41) as u8) + 97) as char;
        return Some(crate::text::char_to_string(c));
    }
    if 0x30 <= code && code <= 0x39 {
        let c = (((code - 0x30) as u8) + 48) as char;
        return Some(crate::text::char_to_string(c));
    }
    None
}

/// The inverse map is consistent with the table: a name that the table
/// maps to a code is exactly what the inverse map returns for that code.
#[verifier::rlimit(100)]
pub proof fn lemma_vkey_inverse(name: Seq<char>)
    requires
        spec_vkey_code(name) is Some,
    ensures
        spec_vkey_name(spec_vkey_code(name)->Some_0) == Some(name),
{
    reveal_strlit("backspace");
    reveal_strlit("tab");
    reveal_strlit("clear");
    reveal_strlit("enter");
    reveal_strlit("shift");
    reveal_strlit("ctrl");
    reveal_strlit("alt");
    reveal_strlit("pause");
    reveal_strlit("caps_lock");
    reveal_strlit("esc");
    reveal_strlit("space");
    reveal_strlit("page_up");
    reveal_strlit("page_down");
    reveal_strlit("end");
    reveal_strlit("home");
    reveal_strlit("left");
    reveal_strlit("up");
    reveal_strlit("right");
    reveal_strlit("down");
    reveal_strlit("select");
    reveal_strlit("print");
    reveal_strlit("execute");
    reveal_strlit("print_screen");
    reveal_strlit("insert");
    reveal_strlit("delete");
    reveal_strlit("help");
    reveal_strlit("windows");
    reveal_strlit("rwindows");
    reveal_strlit("sleep");
    reveal_strlit("multiply");
    reveal_strlit("add");
    reveal_strlit("separator");
    reveal_strlit("subtract");
    reveal_strlit("decimal");
    reveal_strlit("divide");
    reveal_strlit("num_lock");
    reveal_strlit("scroll_lock");
    reveal_strlit("lshift");
    reveal_strlit("rshift");
    reveal_strlit("lcontrol");
    reveal_strlit("rcontrol");
    reveal_strlit("lalt");
    reveal_strlit("ralt");
    reveal_strlit("browser_back");
    reveal_strlit("browser_forward");
    reveal_strlit("browser_refresh");
    reveal_strlit("browser_stop");
    reveal_strlit("browser_search");
    reveal_strlit("browser_favorites");
    reveal_strlit("browser_home");
    reveal_strlit("volume_mute");
    reveal_strlit("volume_down");
    reveal_strlit("volume_up");
    reveal_strlit("media_next_track");
    reveal_strlit("media_prev_track");
    reveal_strlit("media_stop");
    reveal_strlit("media_play_pause");
    reveal_strlit("launch_mail");
    reveal_strlit("launch_media_select");
    reveal_strlit("launch_app_1");
    reveal_strlit("launch_app_2");
    reveal_strlit("play");
    reveal_strlit("zoom");
    reveal_strlit("numpad0");
    reveal_strlit("numpad1");
    reveal_strlit("numpad2");
    reveal_strlit("numpad3");
    reveal_strlit("numpad4");
    reveal_strlit("numpad5");
    reveal_strlit("numpad6");
    reveal_strlit("numpad7");
    reveal_strlit("numpad8");
    reveal_strlit("numpad9");
    reveal_strlit("f1");
    reveal_strlit("f2");
    reveal_strlit("f3");
    reveal_strlit("f4");
    reveal_strlit("f5");
    reveal_strlit("f6");
    reveal_strlit("f7");
    reveal_strlit("f8");
    reveal_strlit("f9");
    reveal_strlit("f10");
    reveal_strlit("f11");
    reveal_strlit("f12");
    reveal_strlit("f13");
    reveal_strlit("f14");
    reveal_strlit("f15");
    reveal_strlit("f16");
    reveal_strlit("f17");
    reveal_strlit("f18");
    reveal_strlit("f19");
    reveal_strlit("f20");
    reveal_strlit("f21");
    reveal_strlit("f22");
    reveal_strlit("f23");
    reveal_strlit("f24");
}


/// Names are unique: two names the table knows with the same code are
/// the same name.
pub proof fn lemma_vkey_names_unique(n1: Seq<char>, n2: Seq<char>)
    requires
        spec_vkey_code(n1) is Some,
        spec_vkey_code(n1) == spec_vkey_code(n2),
    ensures
        n1 == n2,
{
    lemma_vkey_inverse(n1);
    lemma_vkey_inverse(n2);
}

/// An entry of the built table maps back through the inverse side.
pub open spec fn entry_ok(e: Vkey) -> bool {
    spec_vkey_name(e.code) == Some(e.name@)
}

/// Every entry of the built table maps back through the inverse side.
pub open spec fn table_ok(s: Seq<Vkey>) -> bool {
    forall|i: int| 0 <= i < s.len() ==> #[trigger] entry_ok(s[i])
}

/// The built table holds an entry for a code.
pub open spec fn table_covers(s: Seq<Vkey>, code: u16) -> bool {
    exists|i: int| 0 <= i < s.len() && (#[trigger] s[i]).code == code
}

fn push_entry(entries: &mut Vec<Vkey>, name: &str, code: u16)
    requires
        spec_vkey_name(code) == Some(name@),
        table_ok(old(entries)@),
    ensures
        final(entries)@.len() == old(entries)@.len() + 1,
        table_ok(final(entries)@),
        table_covers(final(entries)@, code),
        forall|c: u16| table_covers(old(entries)@, c) ==> table_covers(final(entries)@, c),
{
    entries.push(Vkey { name: String::from_str(name), code });
    proof {
        assert(entry_ok(entries@.last()));
        assert forall|i: int| 0 <= i < entries@.len() implies #[trigger] entry_ok(entries@[i]) by {
            if i < entries@.len() - 1 {
                assert(entries@[i] == old(entries)@[i]);
            }
        }
        assert(entries@[entries@.len() - 1].code == code);
        assert forall|c: u16| table_covers(old(entries)@, c) implies table_covers(
            entries@,
            c,
        ) by {
            let w = choose|i: int| 0 <= i < old(entries)@.len() && (#[trigger] old(
                entries,
            )@[i]).code == c;
            assert(entries@[w] == old(entries)@[w]);
        }
    }
}

#[verifier::rlimit(100)]
fn add_word_entries_a(entries: &mut Vec<Vkey>)
    requires
        table_ok(old(entries)@),
    ensures
        table_ok(final(entries)@),
        final(entries)@.len() == old(entries)@.len() + 32,
        forall|c: u16| table_covers(old(entries)@, c) ==> table_covers(final(entries)@, c),
        table_covers(final(entries)@, 0x08u16),
        table_covers(final(entries)@, 0x09u16),
        table_covers(final(entries)@, 0x0Cu16),
        table_covers(final(entries)@, 0x0Du16),
        table_covers(final(entries)@, 0x10u16),
        table_covers(final(entries)@, 0x11u16),
        table_covers(final(entries)@, 0x12u16),
        table_covers(final(entries)@, 0x13u16),
        table_covers(final(entries)@, 0x14u16),
        table_covers(final(entries)@, 0x1Bu16),
        table_covers(final(entries)@, 0x20u16),
        table_covers(final(entries)@, 0x21u16),
        table_covers(final(entries)@, 0x22u16),
        table_covers(final(entries)@, 0x23u16),
        table_covers(final(entries)@, 0x24u16),
        table_covers(final(entries)@, 0x25u16),
        table_covers(final(entries)@, 0x26u16),
        table_covers(final(entries)@, 0x27u16),
        table_covers(final(entries)@, 0x28u16),
        table_covers(final(entries)@, 0x29u16),
        table_covers(final(entries)@, 0x2Au16),
        table_covers(final(entries)@, 0x2Bu16),
        table_covers(final(entries)@, 0x2Cu16),
        table_covers(final(entries)@, 0x2Du16),
        table_covers(final(entries)@, 0x2Eu16),
        table_covers(final(entries)@, 0x2Fu16),
        table_covers(final(entries)@, 0x5Bu16),
        table_covers(final(entries)@, 0x5Cu16),
        table_covers(final(entries)@, 0x5Fu16),
        table_covers(final(entries)@, 0x6Au16),
        table_covers(final(entries)@, 0x6Bu16),
        table_covers(final(entries)@, 0x6Cu16),
{
    push_entry(entries, "backspace", 0x08);
    push_entry(entries, "tab", 0x09);
    push_entry(entries, "clear", 0x0C);
    push_entry(entries, "enter", 0x0D);
    push_entry(entries, "shift", 0x10);
    push_entry(entries, "ctrl", 0x11);
    push_entry(entries, "alt", 0x12);
    push_entry(entries, "pause", 0x13);
    push_entry(entries, "caps_lock", 0x14);
    push_entry(entries, "esc", 0x1B);
    push_entry(entries, "space", 0x20);
    push_entry(entries, "page_up", 0x21);
    push_entry(entries, "page_down", 0x22);
    push_entry(entries, "end", 0x23);
    push_entry(entries, "home", 0x24);
    push_entry(entries, "left", 0x25);
    push_entry(entries, "up", 0x26);
    push_entry(entries, "right", 0x27);
    push_entry(entries, "down", 0x28);
    push_entry(entries, "select", 0x29);
    push_entry(entries, "print", 0x2A);
    push_entry(entries, "execute", 0x2B);
    push_entry(entries, "print_screen", 0x2C);
    push_entry(entries, "insert", 0x2D);
    push_entry(entries, "delete", 0x2E);
    push_entry(entries, "help", 0x2F);
    push_entry(entries, "windows", 0x5B);
    push_entry(entries, "rwindows", 0x5C);
    push_entry(entries, "sleep", 0x5F);
    push_entry(entries, "multiply", 0x6A);
    push_entry(entries, "add", 0x6B);
    push_entry(entries, "separator", 0x6C);
}

#[verifier::rlimit(100)]
fn add_word_entries_b(entries: &mut Vec<Vkey>)
    requires
        table_ok(old(entries)@),
    ensures
        table_ok(final(entries)@),
        final(entries)@.len() == old(entries)@.len() + 31,
        forall|c: u16| table_covers(old(entries)@, c) ==> table_covers(final(entries)@, c),
        table_covers(final(entries)@, 0x6Du16),
        table_covers(final(entries)@, 0x6Eu16),
        table_covers(final(entries)@, 0x6Fu16),
        table_covers(final(entries)@, 0x90u16),
        table_covers(final(entries)@, 0x91u16),
        table_covers(final(entries)@, 0xA0u16),
        table_covers(final(entries)@, 0xA1u16),
        table_covers(final(entries)@, 0xA2u16),
        table_covers(final(entries)@, 0xA3u16),
        table_covers(final(entries)@, 0xA4u16),
        table_covers(final(entries)@, 0xA5u16),
        table_covers(final(entries)@, 0xA6u16),
        table_covers(final(entries)@, 0xA7u16),
        table_covers(final(entries)@, 0xA8u16),
        table_covers(final(entries)@, 0xA9u16),
        table_covers(final(entries)@, 0xAAu16),
        table_covers(final(entries)@, 0xABu16),
        table_covers(final(entries)@, 0xACu16),
        table_covers(final(entries)@, 0xADu16),
        table_covers(final(entries)@, 0xAEu16),
        table_covers(final(entries)@, 0xAFu16),
        table_covers(final(entries)@, 0xB0u16),
        table_covers(final(entries)@, 0xB1u16),
        table_covers(final(entries)@, 0xB2u16),
        table_covers(final(entries)@, 0xB3u16),
        table_covers(final(entries)@, 0xB4u16),
        table_covers(final(entries)@, 0xB5u16),
        table_covers(final(entries)@, 0xB6u16),
        table_covers(final(entries)@, 0xB7u16),
        table_covers(final(entries)@, 0xFAu16),
        table_covers(final(entries)@, 0xFBu16),
{
    push_entry(entries, "subtract", 0x6D);
    push_entry(entries, "decimal", 0x6E);
    push_entry(entries, "divide", 0x6F);
    push_entry(entries, "num_lock", 0x90);
    push_entry(entries, "scroll_lock", 0x91);
    push_entry(entries, "lshift", 0xA0);
    push_entry(entries, "rshift", 0xA1);
    push_entry(entries, "lcontrol", 0xA2);
    push_entry(entries, "rcontrol", 0xA3);
    push_entry(entries, "lalt", 0xA4);
    push_entry(entries, "ralt", 0xA5);
    push_entry(entries, "browser_back", 0xA6);
    push_entry(entries, "browser_forward", 0xA7);
    push_entry(entries, "browser_refresh", 0xA8);
    push_entry(entries, "browser_stop", 0xA9);
    push_entry(entries, "browser_search", 0xAA);
    push_entry(entries, "browser_favorites", 0xAB);
    push_entry(entries, "browser_home", 0xAC);
    push_entry(entries, "volume_mute", 0xAD);
    push_entry(entries, "volume_down", 0xAE);
    push_entry(entries, "volume_up", 0xAF);
    push_entry(entries, "media_next_track", 0xB0);
    push_entry(entries, "media_prev_track", 0xB1);
    push_entry(entries, "media_stop", 0xB2);
    push_entry(entries, "media_play_pause", 0xB3);
    push_entry(entries, "launch_mail", 0xB4);
    push_entry(entries, "launch_media_select", 0xB5);
    push_entry(entries, "launch_app_1", 0xB6);
    push_entry(entries, "launch_app_2", 0xB7);
    push_entry(entries, "play", 0xFA);
    push_entry(entries, "zoom", 0xFB);
}

#[verifier::rlimit(100)]
fn add_numpad_entries(entries: &mut Vec<Vkey>)
    requires
        table_ok(old(entries)@),
    ensures
        table_ok(final(entries)@),
        final(entries)@.len() == old(entries)@.len() + 10,
        forall|c: u16| table_covers(old(entries)@, c) ==> table_covers(final(entries)@, c),
        forall|c: u16| 0x60 <= c <= 0x69 ==> table_covers(final(entries)@, c),
{
    push_entry(entries, "numpad0", 0x60);
    push_entry(entries, "numpad1", 0x61);
    push_entry(entries, "numpad2", 0x62);
    push_entry(entries, "numpad3", 0x63);
    push_entry(entries, "numpad4", 0x64);
    push_entry(entries, "numpad5", 0x65);
    push_entry(entries, "numpad6", 0x66);
    push_entry(entries, "numpad7", 0x67);
    push_entry(entries, "numpad8", 0x68);
    push_entry(entries, "numpad9", 0x69);
}

#[verifier::rlimit(100)]
fn add_fkey_entries(entries: &mut Vec<Vkey>)
    requires
        table_ok(old(entries)@),
    ensures
        table_ok(final(entries)@),
        final(entries)@.len() == old(entries)@.len() + 24,
        forall|c: u16| table_covers(old(entries)@, c) ==> table_covers(final(entries)@, c),
        forall|c: u16| 0x70 <= c <= 0x87 ==> table_covers(final(entries)@, c),
{
    push_entry(entries, "f1", 0x70);
    push_entry(entries, "f2", 0x71);
    push_entry(entries, "f3", 0x72);
    push_entry(entries, "f4", 0x73);
    push_entry(entries, "f5", 0x74);
    push_entry(entries, "f6", 0x75);
    push_entry(entries, "f7", 0x76);
    push_entry(entries, "f8", 0x77);
    push_entry(entries, "f9", 0x78);
    push_entry(entries, "f10", 0x79);
    push_entry(entries, "f11", 0x7A);
    push_entry(entries, "f12", 0x7B);
    push_entry(entries, "f13", 0x7C);
    push_entry(entries, "f14", 0x7D);
    push_entry(entries, "f15", 0x7E);
    push_entry(entries, "f16", 0x7F);
    push_entry(entries, "f17", 0x80);
    push_entry(entries, "f18", 0x81);
    push_entry(entries, "f19", 0x82);
    push_entry(entries, "f20", 0x83);
    push_entry(entries, "f21", 0x84);
    push_entry(entries, "f22", 0x85);
    push_entry(entries, "f23", 0x86);
    push_entry(entries, "f24", 0x87);
}

#[verifier::rlimit(100)]
fn add_char_entries(entries: &mut Vec<Vkey>)
    requires
        table_ok(old(entries)@),
    ensures
        table_ok(final(entries)@),
        final(entries)@.len() == old(entries)@.len() + 36,
        forall|c: u16| table_covers(old(entries)@, c) ==> table_covers(final(entries)@, c),
        forall|c: u16| 0x41 <= c <= 0x5A ==> table_covers(final(entries)@, c),
        forall|c: u16| 0x30 <= c <= 0x39 ==> table_covers(final(entries)@, c),
{
    let ghost entries0 = entries@;
    let mut d: u16 = 0;
    while d < 26
        invariant
            table_ok(entries@),
            d <= 26,
            entries@.len() == entries0.len() + d as int,
            forall|c: u16| table_covers(entries0, c) ==> table_covers(entries@, c),
            forall|c: u16| 0x41 <= c < 0x41 + d ==> table_covers(entries@, c),
        decreases 26 - d,
    {
        let c = ((0x61 + d) as u8) as char;
        let name = crate::text::char_to_string(c);
        let code: u16 = 0x41 + d;
        proof {
            assert(spec_vkey_name(code) == Some(seq![c]));
        }
        push_entry(entries, name.as_str(), code);
        d = d + 1;
    }
    let mut g: u16 = 0;
    while g < 10
        invariant
            table_ok(entries@),
            g <= 10,
            entries@.len() == entries0.len() + 26 + g as int,
            forall|c: u16| table_covers(entries0, c) ==> table_covers(entries@, c),
            forall|c: u16| 0x41 <= c <= 0x5A ==> table_covers(entries@, c),
            forall|c: u16| 0x30 <= c < 0x30 + g ==> table_covers(entries@, c),
        decreases 10 - g,
    {
        let c = ((0x30 + g) as u8) as char;
        let name = crate::text::char_to_string(c);
        let code: u16 = 0x30 + g;
        proof {
            assert(spec_vkey_name(code) == Some(seq![c]));
        }
        push_entry(entries, name.as_str(), code);
        g = g + 1;
    }
}

/// The whole table as a list of entries, for enumeration: one entry
/// per code the inverse map knows and nothing else, each carrying the
/// canonical name of its code.
#[verifier::rlimit(100)]
pub fn vkey_entries() -> (r: Vec<Vkey>)
    ensures
        table_ok(r@),
        r@.len() == 133,
        forall|c: u16| spec_vkey_name(c) is Some <==> table_covers(r@, c),
{
    let mut entries: Vec<Vkey> = Vec::new();
    add_word_entries_a(&mut entries);
    add_word_entries_b(&mut entries);
    add_numpad_entries(&mut entries);
    add_fkey_entries(&mut entries);
    add_char_entries(&mut entries);
    proof {
        assert forall|c: u16| table_covers(entries@, c) implies spec_vkey_name(c) is Some by {
            let w = choose|i: int| 0 <= i < entries@.len() && (#[trigger] entries@[i]).code == c;
            assert(entry_ok(entries@[w]));
        }
        assert forall|c: u16| spec_vkey_name(c) is Some implies table_covers(entries@, c) by {
            if word_name(c) is Some {
            } else if numpad_name(c) is Some {
                assert(0x60 <= c <= 0x69);
            } else if fkey_name(c) is Some {
                assert(0x70 <= c <= 0x87);
            } else {
                assert(char_name(c) is Some);
                assert((0x41 <= c <= 0x5A) || (0x30 <= c <= 0x39));
            }
        }
    }
    entries
}

} // verus!
