//! The host window's routing decisions: which handler each incoming
//! message reaches, how a suppression query's parameters are decoded,
//! and what each tray menu entry does.

use vstd::prelude::*;

use crate::error::RekeyError;
use crate::hook::{DONT_SKIP_INPUT, SKIP_INPUT, WM_USER_SHELL_ICON, WM_USER_SHOULD_SKIP_INPUT};
use crate::keys::{spec_direction_from_lparam, direction_from_lparam, KeyDirection};
use crate::handlers::SkipInput;

verus! {

pub const WM_DESTROY: u32 = 0x0002;
pub const WM_CLOSE: u32 = 0x0010;
pub const WM_INPUT: u32 = 0x00FF;
pub const WM_COMMAND: u32 = 0x0111;
pub const WM_RBUTTONDOWN: u32 = 0x0204;

/// Which handler a window message reaches.
#[derive(PartialEq, Eq, Clone, Copy, Debug, Structural)]
pub enum WindowMessageKind {
    Close,
    Destroy,
    Input,
    ShouldSkipInput,
    ShellIcon,
    Command,
    Other,
}

/// Routes a message to its handler, exactly as the window procedure's
/// dispatch table reads: close, destroy, raw input, the suppression
/// query, the tray callback, a menu command; everything else takes the
/// default path.
pub fn route_window_message(msg: u32) -> (r: WindowMessageKind)
    ensures
        r == WindowMessageKind::Close <==> msg == WM_CLOSE,
        r == WindowMessageKind::Destroy <==> msg == WM_DESTROY,
        r == WindowMessageKind::Input <==> msg == WM_INPUT,
        r == WindowMessageKind::ShouldSkipInput <==> msg == WM_USER_SHOULD_SKIP_INPUT,
        r == WindowMessageKind::ShellIcon <==> msg == WM_USER_SHELL_ICON,
        r == WindowMessageKind::Command <==> msg == WM_COMMAND,
{
    if msg == WM_CLOSE {
        WindowMessageKind::Close
    } else if msg == WM_DESTROY {
        WindowMessageKind::Destroy
    } else if msg == WM_INPUT {
        WindowMessageKind::Input
    } else if msg == WM_USER_SHOULD_SKIP_INPUT {
        WindowMessageKind::ShouldSkipInput
    } else if msg == WM_USER_SHELL_ICON {
        WindowMessageKind::ShellIcon
    } else if msg == WM_COMMAND {
        WindowMessageKind::Command
    } else {
        WindowMessageKind::Other
    }
}

/// The key code a suppression query carries: the low sixteen bits of
/// its wparam.
pub open spec fn spec_vkey_from_wparam(wparam: u64) -> u16 {
    (wparam & 0xFFFF) as u16
}

/// Decodes a suppression query: the key from the wparam, the direction
/// from bit 31 of the lparam.
pub fn decode_skip_request(wparam: u64, lparam: i64) -> (r: (u16, KeyDirection))
    ensures
        r.0 == spec_vkey_from_wparam(wparam),
        r.1 == spec_direction_from_lparam(lparam),
{
    let vkey = (wparam & 0xFFFF) as u16;
    (vkey, direction_from_lparam(lparam))
}

/// The reply a verdict maps to: the skip marker for Skip, the
/// don't-skip marker otherwise, and nothing else.
pub fn reply_for_verdict(verdict: SkipInput) -> (r: isize)
    ensures
        verdict == SkipInput::Skip <==> r == SKIP_INPUT,
        verdict == SkipInput::DontSkip <==> r == DONT_SKIP_INPUT,
{
    match verdict {
        SkipInput::Skip => SKIP_INPUT,
        SkipInput::DontSkip => DONT_SKIP_INPUT,
    }
}

pub const ID_MENU_EXIT: usize = 1;
pub const ID_MENU_RELOAD_SCRIPTS: usize = 2;
pub const ID_MENU_OPEN_SCRIPTS_FOLDER: usize = 3;
pub const ID_MENU_OPEN_LOG: usize = 4;

/// What a tray menu command does.
#[derive(PartialEq, Eq, Clone, Copy, Debug, Structural)]
pub enum MenuAction {
    Exit,
    ReloadScripts,
    OpenScriptsFolder,
    OpenLog,
    Ignore,
}

/// Maps a menu command id to its action; unknown ids do nothing.
pub fn menu_action(id: usize) -> (r: MenuAction)
    ensures
        r == MenuAction::Exit <==> id == ID_MENU_EXIT,
        r == MenuAction::ReloadScripts <==> id == ID_MENU_RELOAD_SCRIPTS,
        r == MenuAction::OpenScriptsFolder <==> id == ID_MENU_OPEN_SCRIPTS_FOLDER,
        r == MenuAction::OpenLog <==> id == ID_MENU_OPEN_LOG,
{
    if id == ID_MENU_EXIT {
        MenuAction::Exit
    } else if id == ID_MENU_RELOAD_SCRIPTS {
        MenuAction::ReloadScripts
    } else if id == ID_MENU_OPEN_SCRIPTS_FOLDER {
        MenuAction::OpenScriptsFolder
    } else if id == ID_MENU_OPEN_LOG {
        MenuAction::OpenLog
    } else {
        MenuAction::Ignore
    }
}

/// The tray callback opens the popup menu exactly on a right-click,
/// whose message code sits in the low sixteen bits of the lparam.
pub fn shell_icon_opens_menu(lparam: i64) -> (r: bool)
    ensures
        r <==> (lparam & 0xFFFF) == WM_RBUTTONDOWN as i64,
{
    (lparam & 0xFFFF) == WM_RBUTTONDOWN as i64
}

/// The raw-input subscription. Subscribing happens through the OS at
/// startup; unsubscription is implicit at process exit, so tearing the
/// value down succeeds without doing anything.
pub struct RawInput {}

impl RawInput {
    pub fn uninstall(&mut self) -> (r: Result<(), RekeyError>)
        ensures
            r is Ok,
    {
        Ok(())
    }
}

} // verus!
