use rekey::devices::Device;
use rekey::engine::{compile_callback, eval_script, eval_to_boolean};
use rekey::handlers::{make_key_handler, JsOptionArg, KeyHandler, SkipInput};
use rekey::keys::KeyDirection;
use rekey::window::reply_for_verdict;
use rekey::worker::{
    should_skip_input, worker_step, Script, InputMessage,
    WorkerMessage, WorkerStep,
};

fn runtime_with_handler(
    callback_src: &str,
    device_filter: JsOptionArg,
    intercept: bool,
) -> Script<'static> {
    let mut rt = Script::new();
    let cb = compile_callback(&mut rt.context, callback_src).unwrap();
    let handler: KeyHandler =
        make_key_handler(device_filter, JsOptionArg::Absent, intercept, cb).unwrap();
    rt.handlers.push(handler);
    rt
}

#[test]
fn empty_worker_always_lets_strokes_through() {
    let mut scripts: Vec<Script> = Vec::new();
    let v = should_skip_input(&mut scripts, 0x41, KeyDirection::Down, None, &mut Vec::new()).unwrap();
    assert_eq!(v, SkipInput::DontSkip);
    let v = should_skip_input(&mut scripts, 0x1B, KeyDirection::Up, None, &mut Vec::new()).unwrap();
    assert_eq!(v, SkipInput::DontSkip);
}

#[test]
fn intercepting_handler_suppresses_its_key() {
    let rt = runtime_with_handler("(e) => e.key === \"a\"", JsOptionArg::Absent, true);
    let mut scripts = vec![rt];
    let v = should_skip_input(&mut scripts, 0x41, KeyDirection::Down, None, &mut Vec::new()).unwrap();
    assert_eq!(v, SkipInput::Skip);
    assert_eq!(reply_for_verdict(v), 42);
}

#[test]
fn other_keys_pass_through() {
    let rt = runtime_with_handler("(e) => e.key === \"a\"", JsOptionArg::Absent, true);
    let mut scripts = vec![rt];
    let v = should_skip_input(&mut scripts, 0x42, KeyDirection::Down, None, &mut Vec::new()).unwrap();
    assert_eq!(v, SkipInput::DontSkip);
    assert_eq!(reply_for_verdict(v), 1);
}

#[test]
fn event_carries_code_char_and_direction() {
    let rt = runtime_with_handler(
        "(e) => e.vKeyCode === 65 && e.ch === \"a\" && e.direction === \"down\"",
        JsOptionArg::Absent,
        true,
    );
    let mut scripts = vec![rt];
    let v = should_skip_input(&mut scripts, 0x41, KeyDirection::Down, None, &mut Vec::new()).unwrap();
    assert_eq!(v, SkipInput::Skip);
    let v = should_skip_input(&mut scripts, 0x41, KeyDirection::Up, None, &mut Vec::new()).unwrap();
    assert_eq!(v, SkipInput::DontSkip);
}

#[test]
fn non_intercepting_handler_never_suppresses() {
    let rt = runtime_with_handler("(e) => true", JsOptionArg::Absent, false);
    let mut scripts = vec![rt];
    let v = should_skip_input(&mut scripts, 0x41, KeyDirection::Down, None, &mut Vec::new()).unwrap();
    assert_eq!(v, SkipInput::DontSkip);
}

#[test]
fn any_truthy_intercepting_vote_wins() {
    let first = runtime_with_handler("(e) => true", JsOptionArg::Absent, true);
    let second = runtime_with_handler("(e) => false", JsOptionArg::Absent, true);
    let mut scripts = vec![first, second];
    let v = should_skip_input(&mut scripts, 0x41, KeyDirection::Down, None, &mut Vec::new()).unwrap();
    assert_eq!(v, SkipInput::Skip);
}

#[test]
fn all_falsy_votes_pass_the_stroke() {
    let first = runtime_with_handler("(e) => false", JsOptionArg::Absent, true);
    let second = runtime_with_handler("(e) => 0", JsOptionArg::Absent, true);
    let mut scripts = vec![first, second];
    let v = should_skip_input(&mut scripts, 0x41, KeyDirection::Down, None, &mut Vec::new()).unwrap();
    assert_eq!(v, SkipInput::DontSkip);
}

#[test]
fn throwing_handler_contributes_dont_skip() {
    let first = runtime_with_handler("(e) => { throw new Error(\"boom\"); }", JsOptionArg::Absent, true);
    let mut scripts = vec![first];
    let mut errors: Vec<String> = Vec::new();
    let v = should_skip_input(&mut scripts, 0x41, KeyDirection::Down, None, &mut errors).unwrap();
    assert_eq!(v, SkipInput::DontSkip);
    // the failure is surfaced for the host log
    assert_eq!(errors.len(), 1);
    assert!(errors[0].contains("boom"));
    // and dispatch continues with the remaining handlers
    let second = runtime_with_handler("(e) => true", JsOptionArg::Absent, true);
    scripts.push(second);
    let v = should_skip_input(&mut scripts, 0x41, KeyDirection::Down, None, &mut Vec::new()).unwrap();
    assert_eq!(v, SkipInput::Skip);
}

#[test]
fn device_filter_matches_by_substring() {
    let rt = runtime_with_handler(
        "(e) => true",
        JsOptionArg::Str(String::from("Logitech")),
        true,
    );
    let mut scripts = vec![rt];
    let dev = Device { hdevice: 5, device_name: String::from("Logitech USB Keyboard") };
    let v = should_skip_input(&mut scripts, 0x41, KeyDirection::Down, Some(dev), &mut Vec::new()).unwrap();
    assert_eq!(v, SkipInput::Skip);
    let other = Device { hdevice: 6, device_name: String::from("Generic Keyboard") };
    let v = should_skip_input(&mut scripts, 0x41, KeyDirection::Down, Some(other), &mut Vec::new()).unwrap();
    assert_eq!(v, SkipInput::DontSkip);
}

#[test]
fn device_filter_rejects_unknown_devices() {
    let rt = runtime_with_handler(
        "(e) => true",
        JsOptionArg::Str(String::from("Logitech")),
        true,
    );
    let mut scripts = vec![rt];
    let v = should_skip_input(&mut scripts, 0x41, KeyDirection::Down, None, &mut Vec::new()).unwrap();
    assert_eq!(v, SkipInput::DontSkip);
}

#[test]
fn handler_sees_the_device_name() {
    let rt = runtime_with_handler(
        "(e) => e.deviceName === \"Logitech USB Keyboard\"",
        JsOptionArg::Absent,
        true,
    );
    let mut scripts = vec![rt];
    let dev = Device { hdevice: 5, device_name: String::from("Logitech USB Keyboard") };
    let v = should_skip_input(&mut scripts, 0x41, KeyDirection::Down, Some(dev), &mut Vec::new()).unwrap();
    assert_eq!(v, SkipInput::Skip);
    let v = should_skip_input(&mut scripts, 0x41, KeyDirection::Down, None, &mut Vec::new()).unwrap();
    assert_eq!(v, SkipInput::DontSkip);
}

#[test]
fn star_and_absent_device_filters_match_everything() {
    let rt = runtime_with_handler("(e) => true", JsOptionArg::Str(String::from("*")), true);
    let mut scripts = vec![rt];
    let v = should_skip_input(&mut scripts, 0x41, KeyDirection::Down, None, &mut Vec::new()).unwrap();
    assert_eq!(v, SkipInput::Skip);
}

#[test]
fn bad_registration_arguments_are_usage_errors() {
    let mut rt = Script::new();
    let cb = compile_callback(&mut rt.context, "(e) => true").unwrap();
    let r = make_key_handler(
        JsOptionArg::Absent,
        JsOptionArg::Str(String::from("only-a")),
        true,
        cb,
    );
    match r {
        Err(e) => assert!(matches!(e, rekey::error::RekeyError::GenericError(_))),
        Ok(_) => panic!("a key filter other than \"*\" must be rejected"),
    }
    let cb = compile_callback(&mut rt.context, "(e) => true").unwrap();
    let r = make_key_handler(JsOptionArg::OtherType, JsOptionArg::Absent, true, cb);
    match r {
        Err(e) => assert!(matches!(e, rekey::error::RekeyError::GenericError(_))),
        Ok(_) => panic!("a non-string device filter must be rejected"),
    }
    let cb = compile_callback(&mut rt.context, "(e) => true").unwrap();
    assert!(make_key_handler(
        JsOptionArg::Str(String::from("*")),
        JsOptionArg::Str(String::from("*")),
        false,
        cb
    )
    .is_ok());
}

#[test]
fn worker_steps_reply_until_exit() {
    let rt = runtime_with_handler("(e) => e.key === \"a\"", JsOptionArg::Absent, true);
    let mut scripts = vec![rt];
    let step = worker_step(
        &mut scripts,
        WorkerMessage::HandleInput(InputMessage {
            vkey_code: 0x41,
            direction: KeyDirection::Down,
            device: None,
        }),
        &mut Vec::new(),
    );
    assert!(matches!(step, WorkerStep::Reply(SkipInput::Skip)));
    let step = worker_step(&mut scripts, WorkerMessage::Exit, &mut Vec::new());
    assert!(matches!(step, WorkerStep::Exited));
}

#[test]
fn scripts_evaluate_and_keep_state() {
    let mut rt = Script::new();
    eval_script(&mut rt.context, "globalThis.x = 41; globalThis.x += 1;", "test.js").unwrap();
    assert!(eval_to_boolean(&mut rt.context, "globalThis.x === 42").unwrap());
    let e = eval_script(&mut rt.context, "this is not javascript", "broken.js").unwrap_err();
    match e {
        rekey::error::RekeyError::ScriptError(path, _) => assert_eq!(path, "broken.js"),
        _ => panic!("expected a script error"),
    }
}

#[test]
fn compile_callback_rejects_non_functions() {
    let mut rt = Script::new();
    assert!(compile_callback(&mut rt.context, "1 + 1").is_err());
    assert!(compile_callback(&mut rt.context, "(x) => x").is_ok());
}
