use rekey::chord::{
    build_send_key_events, parse_send_direction, resolve_tokens, split_chord, SendDirection,
};
use rekey::keys::ToVirtualKeyResult;

fn parts_of(expr: &str) -> Vec<ToVirtualKeyResult> {
    resolve_tokens(&split_chord(expr)).unwrap()
}

#[test]
fn splitting_recovers_tokens() {
    let toks = split_chord("ctrl+shift+t");
    assert_eq!(toks, vec!["ctrl", "shift", "t"]);
    assert_eq!(split_chord("a"), vec!["a"]);
    assert_eq!(split_chord(""), vec![""]);
    assert_eq!(split_chord("a+"), vec!["a", ""]);
    assert_eq!(split_chord("+a"), vec!["", "a"]);
}

#[test]
fn splitting_then_joining_is_lossless() {
    for expr in ["ctrl+shift+t", "a", "", "a+", "Ctrl+ALT+delete"] {
        let joined = split_chord(expr).join("+");
        assert_eq!(joined, expr);
    }
}

#[test]
fn chord_expands_to_six_events_in_order() {
    let parts = parts_of("ctrl+shift+t");
    let events = build_send_key_events(&parts, SendDirection::Both).unwrap();
    let got: Vec<(u16, bool)> = events.iter().map(|e| (e.vkey, e.up)).collect();
    assert_eq!(
        got,
        vec![
            (0x11, false), // ctrl down
            (0x10, false), // shift down
            (0x54, false), // t down
            (0x54, true),  // t up
            (0x10, true),  // shift up
            (0x11, true),  // ctrl up
        ]
    );
}

#[test]
fn down_and_up_halves() {
    let parts = parts_of("ctrl+t");
    let downs = build_send_key_events(&parts, SendDirection::Down).unwrap();
    let got: Vec<(u16, bool)> = downs.iter().map(|e| (e.vkey, e.up)).collect();
    assert_eq!(got, vec![(0x11, false), (0x54, false)]);
    let ups = build_send_key_events(&parts, SendDirection::Up).unwrap();
    let got: Vec<(u16, bool)> = ups.iter().map(|e| (e.vkey, e.up)).collect();
    assert_eq!(got, vec![(0x54, true), (0x11, true)]);
}

#[test]
fn scan_modifiers_wrap_the_base_key() {
    let part = ToVirtualKeyResult { vkey: 0x41, shift: true, ctrl: true, alt: false, hankaku: false };
    let events = build_send_key_events(&vec![part], SendDirection::Both).unwrap();
    let got: Vec<(u16, bool)> = events.iter().map(|e| (e.vkey, e.up)).collect();
    assert_eq!(
        got,
        vec![
            (0x11, false),
            (0x10, false),
            (0x41, false),
            (0x41, true),
            (0x11, true),
            (0x10, true),
        ]
    );
}

#[test]
fn hankaku_is_rejected() {
    let part = ToVirtualKeyResult { vkey: 0x41, shift: false, ctrl: false, alt: false, hankaku: true };
    let e = build_send_key_events(&vec![part], SendDirection::Both).unwrap_err();
    assert!(matches!(e, rekey::error::RekeyError::GenericError(_)));
}

#[test]
fn unknown_token_fails_the_chord() {
    let e = resolve_tokens(&split_chord("ctrl+definitelynotakey")).unwrap_err();
    assert!(matches!(e, rekey::error::RekeyError::ChordParseError(_)));
}

#[test]
fn send_directions_parse() {
    assert_eq!(parse_send_direction("both"), Some(SendDirection::Both));
    assert_eq!(parse_send_direction("up"), Some(SendDirection::Up));
    assert_eq!(parse_send_direction("down"), Some(SendDirection::Down));
    assert_eq!(parse_send_direction("sideways"), None);
    assert_eq!(parse_send_direction(""), None);
}
