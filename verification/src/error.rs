//! The error type shared by every component of the remapper.

use vstd::prelude::*;
use vstd::string::StringExecFns;

verus! {

/// Every failure surfaced by the library falls into one of these kinds:
/// a generic condition, an OS call that failed (with the OS error text),
/// an I/O failure, a script that failed to evaluate (with its path), or a
/// chord expression that could not be parsed.
#[derive(Debug)]
pub enum RekeyError {
    GenericError(String),
    Win32GetLastError(String, String),
    Win32Error(String, String),
    IoError(String),
    ScriptError(String, String),
    ChordParseError(String),
}

/// The text of an error, as it is written to the log.
pub open spec fn spec_message(e: RekeyError) -> Seq<char> {
    match e {
        RekeyError::GenericError(s) => "Generic Error: "@ + s@,
        RekeyError::Win32GetLastError(s, os) => "Win32 Error: "@ + s@ + ": "@ + os@,
        RekeyError::Win32Error(s, os) => "Win32 Error: "@ + s@ + ": "@ + os@,
        RekeyError::IoError(s) => "IO Error: "@ + s@,
        RekeyError::ScriptError(path, s) => "Script Error: "@ + path@ + ": "@ + s@,
        RekeyError::ChordParseError(expr) => "Chord Parse Error: "@ + expr@,
    }
}

impl RekeyError {
    pub fn message(&self) -> (r: String)
        ensures
            r@ == spec_message(*self),
    {
        match self {
            RekeyError::GenericError(s) => {
                let mut r = String::from_str("Generic Error: ");
                r.append(s.as_str());
                r
            },
            RekeyError::Win32GetLastError(s, os) => {
                let mut r = String::from_str("Win32 Error: ");
                r.append(s.as_str());
                r.append(": ");
                r.append(os.as_str());
                r
            },
            RekeyError::Win32Error(s, os) => {
                let mut r = String::from_str("Win32 Error: ");
                r.append(s.as_str());
                r.append(": ");
                r.append(os.as_str());
                r
            },
            RekeyError::IoError(s) => {
                let mut r = String::from_str("IO Error: ");
                r.append(s.as_str());
                r
            },
            RekeyError::ScriptError(path, s) => {
                let mut r = String::from_str("Script Error: ");
                r.append(path.as_str());
                r.append(": ");
                r.append(s.as_str());
                r
            },
            RekeyError::ChordParseError(expr) => {
                let mut r = String::from_str("Chord Parse Error: ");
                r.append(expr.as_str());
                r
            },
        }
    }
}

} // verus!
