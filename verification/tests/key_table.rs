use rekey::keys::{
    char_from_vcode, decode_key_state, direction_from_lparam, direction_from_raw_message,
    to_virtual_key, vkey_from_scan, KeyDirection,
};
use rekey::vkeys::{vkey_code_for_name, vkey_entries, vkey_name_for_code};

#[test]
fn named_keys_resolve_to_table_codes() {
    let r = to_virtual_key("enter").unwrap();
    assert_eq!(r.vkey, 0x0D);
    assert!(!r.shift && !r.ctrl && !r.alt && !r.hankaku);
    assert_eq!(to_virtual_key("backspace").unwrap().vkey, 0x08);
    assert_eq!(to_virtual_key("ctrl").unwrap().vkey, 0x11);
    assert_eq!(to_virtual_key("lshift").unwrap().vkey, 0xA0);
    assert_eq!(to_virtual_key("zoom").unwrap().vkey, 0xFB);
}

#[test]
fn lookup_is_case_insensitive() {
    let r = to_virtual_key("CTRL").unwrap();
    assert_eq!(r.vkey, 0x11);
    let r = to_virtual_key("Enter").unwrap();
    assert_eq!(r.vkey, 0x0D);
    let r = to_virtual_key("A").unwrap();
    assert_eq!(r.vkey, 0x41);
}

#[test]
fn letters_digits_numpad_fkeys() {
    assert_eq!(to_virtual_key("a").unwrap().vkey, 0x41);
    assert_eq!(to_virtual_key("z").unwrap().vkey, 0x5A);
    assert_eq!(to_virtual_key("0").unwrap().vkey, 0x30);
    assert_eq!(to_virtual_key("9").unwrap().vkey, 0x39);
    assert_eq!(to_virtual_key("numpad0").unwrap().vkey, 0x60);
    assert_eq!(to_virtual_key("numpad9").unwrap().vkey, 0x69);
    assert_eq!(to_virtual_key("f1").unwrap().vkey, 0x70);
    assert_eq!(to_virtual_key("f12").unwrap().vkey, 0x7B);
    assert_eq!(to_virtual_key("f24").unwrap().vkey, 0x87);
}

#[test]
fn unknown_token_is_a_chord_parse_error() {
    let e = to_virtual_key("nosuchkey").unwrap_err();
    assert!(matches!(e, rekey::error::RekeyError::ChordParseError(_)));
    assert_eq!(e.message(), "Chord Parse Error: nosuchkey");
}

#[test]
fn letters_map_to_lowercase_characters() {
    assert_eq!(char_from_vcode(0x41), Some('a'));
    assert_eq!(char_from_vcode(0x5A), Some('z'));
    let code = to_virtual_key("k").unwrap().vkey;
    assert_eq!(char_from_vcode(code), Some('k'));
}

#[test]
fn digits_and_numpad_map_to_characters() {
    assert_eq!(char_from_vcode(0x30), Some('0'));
    assert_eq!(char_from_vcode(0x39), Some('9'));
    assert_eq!(char_from_vcode(0x60), Some('0'));
    assert_eq!(char_from_vcode(0x69), Some('9'));
    assert_eq!(char_from_vcode(0x2F), None);
    assert_eq!(char_from_vcode(0x70), None);
}

#[test]
fn code_lookup_inverts_name_lookup() {
    assert_eq!(vkey_name_for_code(0x0D).unwrap(), "enter");
    assert_eq!(vkey_name_for_code(0x41).unwrap(), "a");
    assert_eq!(vkey_name_for_code(0x35).unwrap(), "5");
    assert_eq!(vkey_name_for_code(0x65).unwrap(), "numpad5");
    assert_eq!(vkey_name_for_code(0x87).unwrap(), "f24");
    assert!(vkey_name_for_code(0x07).is_none());
}

#[test]
fn every_table_entry_round_trips() {
    let entries = vkey_entries();
    assert!(entries.len() >= 120);
    for e in &entries {
        assert_eq!(vkey_code_for_name(&e.name), Some(e.code), "entry {}", e.name);
        assert_eq!(vkey_name_for_code(e.code).unwrap(), e.name);
    }
}

#[test]
fn scan_results_decode_base_and_modifiers() {
    let r = vkey_from_scan(0x0041).unwrap();
    assert_eq!(r.vkey, 0x41);
    assert!(!r.shift && !r.ctrl && !r.alt && !r.hankaku);
    let r = vkey_from_scan(0x0141).unwrap();
    assert!(r.shift && !r.ctrl && !r.alt && !r.hankaku);
    let r = vkey_from_scan(0x0241).unwrap();
    assert!(r.ctrl && !r.shift);
    let r = vkey_from_scan(0x0441).unwrap();
    assert!(r.alt);
    let r = vkey_from_scan(0x0841).unwrap();
    assert!(r.hankaku);
    assert!(vkey_from_scan(0x8041).is_none());
    assert!(vkey_from_scan(0x00FF).is_none());
}

#[test]
fn key_state_bits_decode() {
    let s = decode_key_state(0x8000);
    assert!(s.down && !s.toggled);
    let s = decode_key_state(0x8001);
    assert!(s.down && s.toggled);
    let s = decode_key_state(0x0001);
    assert!(!s.down && s.toggled);
    let s = decode_key_state(0);
    assert!(!s.down && !s.toggled);
}

#[test]
fn directions_decode_from_both_sources() {
    assert_eq!(direction_from_lparam(0), KeyDirection::Down);
    assert_eq!(direction_from_lparam(1 << 31), KeyDirection::Up);
    assert_eq!(direction_from_lparam(-1), KeyDirection::Up);
    assert_eq!(direction_from_raw_message(0x0100), KeyDirection::Down);
    assert_eq!(direction_from_raw_message(0x0101), KeyDirection::Up);
    assert_eq!(direction_from_raw_message(0x0104), KeyDirection::Down);
    assert_eq!(direction_from_raw_message(0x0105), KeyDirection::Up);
    assert_eq!(direction_from_raw_message(0x0200), KeyDirection::Down);
}
