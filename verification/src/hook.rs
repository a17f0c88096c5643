//! The injected hook module's decisions: when a stroke is forwarded
//! down the hook chain, when the host is asked, and what the host's
//! reply means. The per-process singleton holding the rendezvous
//! record lives here as a plain state machine.

use vstd::prelude::*;
use vstd::string::StringExecFns;

use crate::error::RekeyError;
use crate::rendezvous::RendezvousRecord;

verus! {

/// The base of the user-defined window message range.
pub const WM_USER: u32 = 0x0400;

/// The synchronous suppression query the hook sends to the host.
pub const WM_USER_SHOULD_SKIP_INPUT: u32 = 0x0400 + 300;

/// The tray icon's callback message.
pub const WM_USER_SHELL_ICON: u32 = 0x0400 + 301;

/// The host's reply meaning "drop the stroke".
pub const SKIP_INPUT: isize = 42;

/// The host's reply meaning "let the stroke through".
pub const DONT_SKIP_INPUT: isize = 1;

/// The hook code on which a hook is expected to act.
pub const HC_ACTION: i32 = 0;

/// What the hook body does with a stroke before hearing from the host.
#[derive(PartialEq, Eq, Clone, Copy, Debug, Structural)]
pub enum HookDecision {
    /// Pass the event down the hook chain untouched.
    Forward,
    /// Send the synchronous suppression query to the host.
    AskHost,
}

/// The host is consulted exactly for actionable hook codes; every
/// other code (negative ones in particular) is forwarded untouched.
pub fn hook_decision(code: i32) -> (r: HookDecision)
    ensures
        r == HookDecision::AskHost <==> code == HC_ACTION,
        code < 0 ==> r == HookDecision::Forward,
{
    if code < 0 || code != HC_ACTION {
        HookDecision::Forward
    } else {
        HookDecision::AskHost
    }
}

/// What the hook body does after the host replied.
#[derive(PartialEq, Eq, Clone, Copy, Debug, Structural)]
pub enum HookAction {
    /// Return 1: the OS drops the stroke.
    Suppress,
    /// Pass the event down the hook chain.
    CallNext,
}

/// Only the designated skip marker suppresses; every other reply
/// (the don't-skip marker included) lets the stroke through.
pub fn hook_action_for_reply(reply: isize) -> (r: HookAction)
    ensures
        r == HookAction::Suppress <==> reply == SKIP_INPUT,
{
    if reply == SKIP_INPUT {
        HookAction::Suppress
    } else {
        HookAction::CallNext
    }
}

/// The value the hook returns to the OS when it suppresses a stroke.
pub fn hook_return_value(action: HookAction) -> (r: Option<isize>)
    ensures
        action == HookAction::Suppress <==> r == Some(1isize),
        action == HookAction::CallNext <==> r is None,
{
    match action {
        HookAction::Suppress => Some(1),
        HookAction::CallNext => None,
    }
}

/// Records the freshly installed hook in the per-process singleton.
/// Installing twice fails and changes nothing.
pub fn install_record(
    state: &mut Option<RendezvousRecord>,
    hhook: i64,
    hwnd: i64,
) -> (r: Result<RendezvousRecord, RekeyError>)
    ensures
        (*old(state)) is Some ==> r is Err && *final(state) == *old(state),
        (*old(state)) is None ==> r == Ok::<RendezvousRecord, RekeyError>(
            RendezvousRecord { hhook, hwnd },
        ) && *final(state) == Some(RendezvousRecord { hhook, hwnd }),
        r matches Err(e) ==> e is GenericError,
{
    if state.is_some() {
        return Err(RekeyError::GenericError(String::from_str("already installed")));
    }
    let record = RendezvousRecord { hhook, hwnd };
    *state = Some(record);
    Ok(record)
}

/// Clears the singleton on uninstall; uninstalling without an install
/// fails and changes nothing.
pub fn uninstall_record(state: &mut Option<RendezvousRecord>) -> (r: Result<
    RendezvousRecord,
    RekeyError,
>)
    ensures
        (*old(state)) is None ==> r is Err && *final(state) == *old(state),
        *old(state) matches Some(rec) ==> r == Ok::<RendezvousRecord, RekeyError>(rec)
            && *final(state) is None,
        r matches Err(e) ==> e is GenericError,
{
    match *state {
        None => Err(RekeyError::GenericError(String::from_str("not installed"))),
        Some(rec) => {
            *state = None;
            Ok(rec)
        },
    }
}

} // verus!
