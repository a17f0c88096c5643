//! The core of a user-level keyboard remapper: a low-level hook in
//! every GUI process asks a host, synchronously, whether to suppress
//! each stroke; the host pairs strokes with their physical device
//! through a short-lived input log and puts the question to
//! user-authored scripts, which may also synthesize chords and arm
//! timers.
//!
//! Everything that decides — the key table, chord parsing, the input
//! log, the device registry, the hook and rendezvous protocol, handler
//! dispatch and verdicts, timers, and the worker's step behaviour — is
//! specified and verified here. The operating system and the embedded
//! script engine stay behind narrow, documented seams.

pub mod chord;
pub mod devices;
pub mod engine;
pub mod error;
pub mod handlers;
pub mod hook;
pub mod input_log;
pub mod keys;
pub mod paths;
pub mod rendezvous;
pub mod text;
pub mod timers;
pub mod vkeys;
pub mod window;
pub mod worker;
