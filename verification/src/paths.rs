//! Where the remapper keeps its files, relative to the per-user data
//! directory, and which directory entries count as scripts.

use vstd::prelude::*;
use vstd::string::StringExecFns;

use crate::text::str_eq;

verus! {

/// The generated API stub written into the scripts directory.
pub const REKEY_API_JS_FILENAME: &'static str = "rekey-api.js";

/// A path separator, either style.
pub open spec fn is_sep(c: char) -> bool {
    c == '/' || c == '\\'
}

/// The user directory derived from the platform's config directory:
/// a trailing `config` path component is stripped.
pub open spec fn spec_user_dir(config_dir: Seq<char>) -> Seq<char> {
    if config_dir.len() == 6 && config_dir == "config"@ {
        Seq::<char>::empty()
    } else if config_dir.len() > 6 && config_dir.subrange(
        config_dir.len() - 6,
        config_dir.len() as int,
    ) == "config"@ && is_sep(config_dir[config_dir.len() - 7]) {
        config_dir.subrange(0, config_dir.len() - 7)
    } else {
        config_dir
    }
}

/// Strips a trailing `config` path component, as the user directory is
/// derived from the platform's config directory.
pub fn get_user_dir(config_dir: &str) -> (r: String)
    ensures
        r@ == spec_user_dir(config_dir@),
{
    let n = config_dir.unicode_len();
    if n < 6 {
        return String::from_str(config_dir);
    }
    let tail = config_dir.substring_char(n - 6, n);
    if !str_eq(tail, "config") {
        proof {
            if n == 6 {
                assert(config_dir@.subrange(0, 6) =~= config_dir@);
            }
        }
        return String::from_str(config_dir);
    }
    if n == 6 {
        proof {
            assert(config_dir@.subrange(0, 6) =~= config_dir@);
        }
        return String::new();
    }
    let before = config_dir.get_char(n - 7);
    if before == '/' || before == '\\' {
        let kept = config_dir.substring_char(0, n - 7);
        String::from_str(kept)
    } else {
        String::from_str(config_dir)
    }
}

/// The log file, directly under the user directory.
pub fn get_log_filename(user_dir: &str) -> (r: String)
    ensures
        r@ == user_dir@ + "\\"@ + "rekey.log"@,
{
    let mut r = String::from_str(user_dir);
    r.append("\\");
    r.append("rekey.log");
    r
}

/// The script directory, directly under the user directory.
pub fn get_scripts_dir(user_dir: &str) -> (r: String)
    ensures
        r@ == user_dir@ + "\\"@ + "scripts"@,
{
    let mut r = String::from_str(user_dir);
    r.append("\\");
    r.append("scripts");
    r
}

/// A directory entry is loaded as a script exactly when its name ends
/// in `.js` or `.ts` and has something before the dot.
pub open spec fn spec_is_script_file(name: Seq<char>) -> bool {
    name.len() >= 4 && (name.subrange(name.len() - 3, name.len() as int) == ".js"@
        || name.subrange(name.len() - 3, name.len() as int) == ".ts"@)
}

pub fn is_script_file(name: &str) -> (r: bool)
    ensures
        r == spec_is_script_file(name@),
{
    let n = name.unicode_len();
    if n < 4 {
        return false;
    }
    let ext = name.substring_char(n - 3, n);
    str_eq(ext, ".js") || str_eq(ext, ".ts")
}

} // verus!
