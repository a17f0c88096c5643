use rekey::devices::{Device, DeviceRegistry};
use rekey::input_log::{input_log_add_wm_input, input_log_get_device, InputLog};
use rekey::keys::KeyDirection;

fn device(h: u64, name: &str) -> Device {
    Device { hdevice: h, device_name: String::from(name) }
}

#[test]
fn fresh_entry_pairs_once() {
    let mut log = InputLog::new();
    input_log_add_wm_input(&mut log, 1000, device(7, "kb"), 0x41, KeyDirection::Down).unwrap();
    let d = input_log_get_device(&mut log, 1500, 0x41, KeyDirection::Down).unwrap();
    assert_eq!(d.unwrap().hdevice, 7);
    // the entry was removed: a second query finds nothing
    let d = input_log_get_device(&mut log, 1500, 0x41, KeyDirection::Down).unwrap();
    assert!(d.is_none());
    assert_eq!(log.entries.len(), 0);
}

#[test]
fn stale_entry_does_not_pair_and_stays() {
    let mut log = InputLog { entries: Vec::new() };
    input_log_add_wm_input(&mut log, 1000, device(7, "kb"), 0x41, KeyDirection::Down).unwrap();
    let d = input_log_get_device(&mut log, 2000, 0x41, KeyDirection::Down).unwrap();
    assert!(d.is_none());
    assert_eq!(log.entries.len(), 1);
    // just inside the window it still pairs
    let d = input_log_get_device(&mut log, 1999, 0x41, KeyDirection::Down).unwrap();
    assert_eq!(d.unwrap().hdevice, 7);
}

#[test]
fn key_and_direction_must_match() {
    let mut log = InputLog { entries: Vec::new() };
    input_log_add_wm_input(&mut log, 1000, device(7, "kb"), 0x41, KeyDirection::Down).unwrap();
    assert!(input_log_get_device(&mut log, 1001, 0x42, KeyDirection::Down).unwrap().is_none());
    assert!(input_log_get_device(&mut log, 1001, 0x41, KeyDirection::Up).unwrap().is_none());
    assert_eq!(log.entries.len(), 1);
}

#[test]
fn sighting_from_the_future_fails() {
    let mut log = InputLog { entries: Vec::new() };
    input_log_add_wm_input(&mut log, 5000, device(7, "kb"), 0x41, KeyDirection::Down).unwrap();
    assert!(input_log_get_device(&mut log, 4000, 0x41, KeyDirection::Down).is_err());
    assert_eq!(log.entries.len(), 1);
}

#[test]
fn log_is_bounded_and_evicts_oldest_first() {
    let mut log = InputLog { entries: Vec::new() };
    for i in 0..101u64 {
        input_log_add_wm_input(&mut log, i, device(i, "kb"), i as u16, KeyDirection::Down)
            .unwrap();
    }
    assert_eq!(log.entries.len(), 100);
    // the very first sighting (vkey 0) was evicted, the second survives
    assert_eq!(log.entries[0].vkey_code, 1);
    assert_eq!(log.entries[99].vkey_code, 100);
}

#[test]
fn known_handles_resolve_stably() {
    let mut reg = DeviceRegistry::new();
    let fresh = vec![device(1, "first kb"), device(2, "second kb")];
    let empty: Vec<Device> = Vec::new();
    let d = reg.find_device(1, &fresh);
    assert_eq!(d.device_name, "first kb");
    // later lookups never consult the fresh list again and see the
    // same descriptor, however the registry has grown since
    let d2 = reg.find_device(1, &empty);
    assert_eq!(d2.device_name, "first kb");
    let _ = reg.find_device(99, &empty);
    let d3 = reg.find_device(1, &empty);
    assert_eq!(d3.device_name, "first kb");
}

#[test]
fn unknown_handles_get_a_sentinel() {
    let mut reg = DeviceRegistry::new();
    let empty: Vec<Device> = Vec::new();
    let d = reg.find_device(42, &empty);
    assert_eq!(d.device_name, "Unknown");
    assert_eq!(d.hdevice, 42);
    // and it too is stable
    let d2 = reg.find_device(42, &empty);
    assert_eq!(d2.device_name, "Unknown");
    assert_eq!(reg.devices.len(), 1);
}

#[test]
fn enumeration_fills_the_registry() {
    let mut reg = DeviceRegistry::new();
    let fresh = vec![device(1, "kb"), device(2, "mouse")];
    let d = reg.find_device(2, &fresh);
    assert_eq!(d.device_name, "mouse");
    assert_eq!(reg.devices.len(), 2);
}
