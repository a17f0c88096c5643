use rekey::error::RekeyError;
use rekey::paths::{
    get_log_filename, get_scripts_dir, get_user_dir, is_script_file, REKEY_API_JS_FILENAME,
};
use rekey::text::{ascii_lowercase, str_contains, str_eq};

#[test]
fn trailing_config_segment_is_stripped() {
    assert_eq!(
        get_user_dir("C:\\Users\\me\\AppData\\Roaming\\rekey\\config"),
        "C:\\Users\\me\\AppData\\Roaming\\rekey"
    );
    assert_eq!(get_user_dir("/home/me/.config/rekey/config"), "/home/me/.config/rekey");
    assert_eq!(get_user_dir("C:\\plain\\rekey"), "C:\\plain\\rekey");
    // only a whole trailing component counts
    assert_eq!(get_user_dir("C:\\rekey\\myconfig"), "C:\\rekey\\myconfig");
    assert_eq!(get_user_dir("config"), "");
}

#[test]
fn files_hang_off_the_user_dir() {
    assert_eq!(get_log_filename("C:\\rekey"), "C:\\rekey\\rekey.log");
    assert_eq!(get_scripts_dir("C:\\rekey"), "C:\\rekey\\scripts");
    assert_eq!(REKEY_API_JS_FILENAME, "rekey-api.js");
}

#[test]
fn only_js_and_ts_files_are_scripts() {
    assert!(is_script_file("remap.js"));
    assert!(is_script_file("remap.ts"));
    assert!(is_script_file("rekey-api.js"));
    assert!(!is_script_file("notes.txt"));
    assert!(!is_script_file("script.js.bak"));
    assert!(!is_script_file(".js"));
    assert!(!is_script_file(""));
}

#[test]
fn error_messages_name_their_kind() {
    assert_eq!(
        RekeyError::GenericError(String::from("boom")).message(),
        "Generic Error: boom"
    );
    assert_eq!(
        RekeyError::Win32Error(String::from("failed to set hook"), String::from("code 5"))
            .message(),
        "Win32 Error: failed to set hook: code 5"
    );
    assert_eq!(
        RekeyError::Win32GetLastError(String::from("GetMessageW"), String::from("code 6"))
            .message(),
        "Win32 Error: GetMessageW: code 6"
    );
    assert_eq!(RekeyError::IoError(String::from("denied")).message(), "IO Error: denied");
    assert_eq!(
        RekeyError::ScriptError(String::from("a.js"), String::from("syntax")).message(),
        "Script Error: a.js: syntax"
    );
    assert_eq!(
        RekeyError::ChordParseError(String::from("ctrl+")).message(),
        "Chord Parse Error: ctrl+"
    );
}

#[test]
fn text_helpers_behave() {
    assert_eq!(ascii_lowercase("Ctrl+Shift+T"), "ctrl+shift+t");
    assert_eq!(ascii_lowercase(""), "");
    assert_eq!(ascii_lowercase("already"), "already");
    assert!(str_eq("abc", "abc"));
    assert!(!str_eq("abc", "abd"));
    assert!(!str_eq("abc", "ab"));
    assert!(str_contains("Logitech USB Keyboard", "Logitech"));
    assert!(str_contains("Logitech USB Keyboard", ""));
    assert!(!str_contains("Generic", "Logitech"));
    assert!(str_contains("aaab", "aab"));
}
