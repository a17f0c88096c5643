use rekey::handlers::SkipInput;
use rekey::hook::{
    hook_action_for_reply, hook_decision, hook_return_value, install_record, uninstall_record,
    HookAction, HookDecision, DONT_SKIP_INPUT, SKIP_INPUT,
};
use rekey::rendezvous::RendezvousRecord;
use rekey::window::{
    decode_skip_request, menu_action, reply_for_verdict, route_window_message,
    shell_icon_opens_menu, MenuAction, RawInput, WindowMessageKind,
};

#[test]
fn negative_codes_forward_without_asking() {
    assert_eq!(hook_decision(-1), HookDecision::Forward);
    assert_eq!(hook_decision(-7), HookDecision::Forward);
    assert_eq!(hook_decision(3), HookDecision::Forward);
    assert_eq!(hook_decision(0), HookDecision::AskHost);
}

#[test]
fn only_the_skip_marker_suppresses() {
    assert_eq!(hook_action_for_reply(SKIP_INPUT), HookAction::Suppress);
    assert_eq!(hook_action_for_reply(DONT_SKIP_INPUT), HookAction::CallNext);
    assert_eq!(hook_action_for_reply(0), HookAction::CallNext);
    assert_eq!(hook_action_for_reply(43), HookAction::CallNext);
    assert_eq!(hook_return_value(HookAction::Suppress), Some(1));
    assert_eq!(hook_return_value(HookAction::CallNext), None);
}

#[test]
fn install_is_exclusive_per_process() {
    let mut state: Option<RendezvousRecord> = None;
    let rec = install_record(&mut state, 10, 20).unwrap();
    assert_eq!((rec.hhook, rec.hwnd), (10, 20));
    assert!(install_record(&mut state, 30, 40).is_err());
    assert_eq!(state.unwrap().hhook, 10);
}

#[test]
fn uninstall_requires_install() {
    let mut state: Option<RendezvousRecord> = None;
    assert!(uninstall_record(&mut state).is_err());
    install_record(&mut state, 1, 2).unwrap();
    let rec = uninstall_record(&mut state).unwrap();
    assert_eq!((rec.hhook, rec.hwnd), (1, 2));
    assert!(state.is_none());
    assert!(uninstall_record(&mut state).is_err());
}

#[test]
fn rendezvous_record_round_trips_bit_identically() {
    for (hhook, hwnd) in [
        (0i64, 0i64),
        (0x1122334455667788, 0x0102030405060708),
        (-1, i64::MIN),
        (i64::MAX, -42),
    ] {
        let rec = RendezvousRecord { hhook, hwnd };
        let bytes = rec.serialize();
        assert_eq!(bytes.len(), 16);
        let back = RendezvousRecord::deserialize(&bytes).unwrap();
        assert_eq!((back.hhook, back.hwnd), (hhook, hwnd));
    }
}

#[test]
fn rendezvous_record_bytes_are_little_endian() {
    let rec = RendezvousRecord { hhook: 0x1122334455667788, hwnd: 1 };
    let bytes = rec.serialize();
    assert_eq!(
        bytes,
        vec![
            0x88, 0x77, 0x66, 0x55, 0x44, 0x33, 0x22, 0x11, 0x01, 0, 0, 0, 0, 0, 0, 0
        ]
    );
}

#[test]
fn short_or_long_records_are_rejected() {
    assert!(RendezvousRecord::deserialize(&[0u8; 15]).is_err());
    assert!(RendezvousRecord::deserialize(&[0u8; 17]).is_err());
    assert!(RendezvousRecord::deserialize(&[]).is_err());
    assert!(RendezvousRecord::deserialize(&[0u8; 16]).is_ok());
}

#[test]
fn window_messages_route_to_their_handlers() {
    assert_eq!(route_window_message(0x0010), WindowMessageKind::Close);
    assert_eq!(route_window_message(0x0002), WindowMessageKind::Destroy);
    assert_eq!(route_window_message(0x00FF), WindowMessageKind::Input);
    assert_eq!(route_window_message(0x0400 + 300), WindowMessageKind::ShouldSkipInput);
    assert_eq!(route_window_message(0x0400 + 301), WindowMessageKind::ShellIcon);
    assert_eq!(route_window_message(0x0111), WindowMessageKind::Command);
    assert_eq!(route_window_message(0x0400), WindowMessageKind::Other);
}

#[test]
fn skip_requests_decode() {
    let (vkey, dir) = decode_skip_request(0x41, 0);
    assert_eq!(vkey, 0x41);
    assert_eq!(dir, rekey::keys::KeyDirection::Down);
    let (vkey, dir) = decode_skip_request(0xAB0042, 1 << 31);
    assert_eq!(vkey, 0x42);
    assert_eq!(dir, rekey::keys::KeyDirection::Up);
}

#[test]
fn verdicts_map_to_the_wire_markers() {
    assert_eq!(reply_for_verdict(SkipInput::Skip), 42);
    assert_eq!(reply_for_verdict(SkipInput::DontSkip), 1);
}

#[test]
fn tray_menu_ids() {
    assert_eq!(menu_action(1), MenuAction::Exit);
    assert_eq!(menu_action(2), MenuAction::ReloadScripts);
    assert_eq!(menu_action(3), MenuAction::OpenScriptsFolder);
    assert_eq!(menu_action(4), MenuAction::OpenLog);
    assert_eq!(menu_action(5), MenuAction::Ignore);
    assert_eq!(menu_action(0), MenuAction::Ignore);
    assert!(shell_icon_opens_menu(0x0204));
    assert!(shell_icon_opens_menu(0x9990204));
    assert!(!shell_icon_opens_menu(0x0201));
}

#[test]
fn raw_input_teardown_is_a_no_op() {
    let mut raw = RawInput {};
    assert!(raw.uninstall().is_ok());
}
