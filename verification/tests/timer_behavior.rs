use rekey::engine::{compile_callback, eval_to_boolean};
use rekey::timers::{
    clear_timeout, nearest_due, set_timeout, wait_duration, Timer, TimerIdAlloc,
};
use rekey::worker::{get_nearest_duration, nearest_timer_deadline, run_all_timers, Script};

#[test]
fn ids_start_at_one_and_count_up() {
    let mut ids = TimerIdAlloc::new();
    assert_eq!(ids.allocate(), 1);
    assert_eq!(ids.allocate(), 2);
    assert_eq!(ids.allocate(), 3);
}

#[test]
fn ids_skip_zero_on_wraparound() {
    let mut ids = TimerIdAlloc { next: 0xFFFF };
    assert_eq!(ids.allocate(), 0xFFFF);
    let id = ids.allocate();
    assert_ne!(id, 0);
    assert_eq!(id, 1);
    assert_eq!(ids.allocate(), 2);
}

#[test]
fn set_timeout_arms_a_timer() {
    let mut rt = Script::new();
    let cb = compile_callback(&mut rt.context, "() => {}").unwrap();
    let mut ids = TimerIdAlloc::new();
    let id = set_timeout(&mut rt.timers, &mut ids, 1000, 50, cb);
    assert_ne!(id, 0);
    assert_eq!(rt.timers.len(), 1);
    assert_eq!(rt.timers[0].due_ms, 1050);
    assert_eq!(rt.timers[0].id, id);
}

#[test]
fn clear_timeout_disarms_by_id() {
    let mut rt = Script::new();
    let mut ids = TimerIdAlloc::new();
    let cb1 = compile_callback(&mut rt.context, "() => {}").unwrap();
    let cb2 = compile_callback(&mut rt.context, "() => {}").unwrap();
    let id1 = set_timeout(&mut rt.timers, &mut ids, 0, 10, cb1);
    let id2 = set_timeout(&mut rt.timers, &mut ids, 0, 20, cb2);
    clear_timeout(&mut rt.timers, id1);
    assert_eq!(rt.timers.len(), 1);
    assert_eq!(rt.timers[0].id, id2);
    clear_timeout(&mut rt.timers, 999);
    assert_eq!(rt.timers.len(), 1);
}

#[test]
fn nearest_deadline_is_the_minimum() {
    let mut rt = Script::new();
    let mut ids = TimerIdAlloc::new();
    for delay in [300u64, 100, 200] {
        let cb = compile_callback(&mut rt.context, "() => {}").unwrap();
        set_timeout(&mut rt.timers, &mut ids, 0, delay, cb);
    }
    assert_eq!(nearest_due(&rt.timers), Some(100));
    let empty: Vec<Timer> = Vec::new();
    assert_eq!(nearest_due(&empty), None);
    assert_eq!(wait_duration(100, 30), 70);
    assert_eq!(wait_duration(100, 100), 0);
    assert_eq!(wait_duration(100, 250), 0);
    let scripts = vec![rt, Script::new()];
    assert_eq!(nearest_timer_deadline(&scripts), Some(100));
    assert_eq!(get_nearest_duration(&scripts, 30), Some(70));
    assert_eq!(get_nearest_duration(&scripts, 250), Some(0));
    let none: Vec<rekey::worker::Script> = vec![Script::new()];
    assert_eq!(nearest_timer_deadline(&none), None);
}

#[test]
fn timers_fire_once_at_or_after_their_due_time() {
    let mut rt = Script::new();
    let mut ids = TimerIdAlloc::new();
    let cb = compile_callback(
        &mut rt.context,
        "() => { globalThis.fired = (globalThis.fired || 0) + 1; }",
    )
    .unwrap();
    set_timeout(&mut rt.timers, &mut ids, 1000, 50, cb);
    let mut scripts = vec![rt];
    run_all_timers(&mut scripts, 1049, &mut Vec::new());
    assert_eq!(scripts[0].timers.len(), 1);
    assert!(eval_to_boolean(&mut scripts[0].context, "globalThis.fired === undefined").unwrap());
    run_all_timers(&mut scripts, 1050, &mut Vec::new());
    assert_eq!(scripts[0].timers.len(), 0);
    assert!(eval_to_boolean(&mut scripts[0].context, "globalThis.fired === 1").unwrap());
    // firing removed the timer: running again does nothing
    run_all_timers(&mut scripts, 2000, &mut Vec::new());
    assert!(eval_to_boolean(&mut scripts[0].context, "globalThis.fired === 1").unwrap());
}

#[test]
fn cleared_timers_never_fire() {
    let mut rt = Script::new();
    let mut ids = TimerIdAlloc::new();
    let cb = compile_callback(&mut rt.context, "() => { globalThis.fired = true; }").unwrap();
    let id = set_timeout(&mut rt.timers, &mut ids, 0, 50, cb);
    clear_timeout(&mut rt.timers, id);
    let mut scripts = vec![rt];
    run_all_timers(&mut scripts, 1000, &mut Vec::new());
    assert!(eval_to_boolean(&mut scripts[0].context, "globalThis.fired === undefined").unwrap());
}

#[test]
fn due_timers_fire_in_due_time_order() {
    let mut rt = Script::new();
    let mut ids = TimerIdAlloc::new();
    let cb_late = compile_callback(
        &mut rt.context,
        "() => { globalThis.order = (globalThis.order || \"\") + \"late\"; }",
    )
    .unwrap();
    let cb_early = compile_callback(
        &mut rt.context,
        "() => { globalThis.order = (globalThis.order || \"\") + \"early-\"; }",
    )
    .unwrap();
    // armed latest-first, still fires earliest-first
    set_timeout(&mut rt.timers, &mut ids, 0, 200, cb_late);
    set_timeout(&mut rt.timers, &mut ids, 0, 100, cb_early);
    let mut scripts = vec![rt];
    run_all_timers(&mut scripts, 300, &mut Vec::new());
    assert!(eval_to_boolean(&mut scripts[0].context, "globalThis.order === \"early-late\"")
        .unwrap());
}

#[test]
fn a_failing_timer_callback_is_dropped() {
    let mut rt = Script::new();
    let mut ids = TimerIdAlloc::new();
    let cb = compile_callback(&mut rt.context, "() => { throw new Error(\"boom\"); }").unwrap();
    set_timeout(&mut rt.timers, &mut ids, 0, 10, cb);
    let mut scripts = vec![rt];
    let mut errors: Vec<String> = Vec::new();
    run_all_timers(&mut scripts, 100, &mut errors);
    assert_eq!(scripts[0].timers.len(), 0);
    // the failure is surfaced for the host log
    assert_eq!(errors.len(), 1);
    assert!(errors[0].contains("boom"));
}
