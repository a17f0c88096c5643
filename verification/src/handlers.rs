//! Key handlers: the filters a script registers, how a single handler
//! votes on a stroke, and how the votes combine into the verdict.

use boa_engine::JsObject;
use vstd::prelude::*;
use vstd::string::StringExecFns;

use crate::error::RekeyError;
use crate::text::{spec_contains, str_contains, str_eq};

verus! {

/// Whether the stroke is let through or dropped.
#[derive(PartialEq, Eq, Clone, Copy, Debug, Structural)]
pub enum SkipInput {
    Skip,
    DontSkip,
}

/// Which devices a handler listens to: all of them, or only those
/// whose name contains a given substring.
pub enum KeyHandlerDeviceFilter {
    All,
    Contains(String),
}

/// Which keys a handler listens to; only "all keys" exists today.
pub enum KeyHandlerKeyFilter {
    All,
}

/// One registered handler: its filters, whether its answer may
/// suppress the stroke, and the script function to call.
pub struct KeyHandler {
    pub device_filter: KeyHandlerDeviceFilter,
    pub key_filter: KeyHandlerKeyFilter,
    pub intercept: bool,
    pub callback: JsObject,
}

/// When a device filter admits a stroke: a name filter needs a known
/// device whose name contains the text; a stroke without a device
/// never passes a name filter.
pub open spec fn spec_device_filter_matches(
    filter: KeyHandlerDeviceFilter,
    device_name: Option<Seq<char>>,
) -> bool {
    match filter {
        KeyHandlerDeviceFilter::All => true,
        KeyHandlerDeviceFilter::Contains(needle) => match device_name {
            Some(name) => spec_contains(name, needle@),
            None => false,
        },
    }
}

/// Evaluates a device filter against the stroke's device, if any.
pub fn device_filter_matches(
    filter: &KeyHandlerDeviceFilter,
    device_name: Option<&String>,
) -> (r: bool)
    ensures
        r == spec_device_filter_matches(
            *filter,
            match device_name {
                Some(n) => Some(n@),
                None => None,
            },
        ),
{
    match filter {
        KeyHandlerDeviceFilter::All => true,
        KeyHandlerDeviceFilter::Contains(needle) => match device_name {
            Some(name) => str_contains(name.as_str(), needle.as_str()),
            None => false,
        },
    }
}

/// A handler's vote from its intercept flag and its callback's
/// truthiness: only an intercepting handler whose callback answered
/// truthy votes to drop the stroke.
pub open spec fn spec_vote(intercept: bool, truthy: bool) -> SkipInput {
    if intercept && truthy {
        SkipInput::Skip
    } else {
        SkipInput::DontSkip
    }
}

pub fn handler_vote(intercept: bool, truthy: bool) -> (r: SkipInput)
    ensures
        r == spec_vote(intercept, truthy),
        r == SkipInput::Skip <==> intercept && truthy,
{
    if intercept && truthy {
        SkipInput::Skip
    } else {
        SkipInput::DontSkip
    }
}

/// The combined verdict of a list of votes: drop the stroke exactly
/// when someone voted to drop it.
pub open spec fn spec_aggregate(votes: Seq<SkipInput>) -> SkipInput {
    if exists|i: int| 0 <= i < votes.len() && votes[i] == SkipInput::Skip {
        SkipInput::Skip
    } else {
        SkipInput::DontSkip
    }
}

pub fn aggregate_verdict(votes: &Vec<SkipInput>) -> (r: SkipInput)
    ensures
        r == spec_aggregate(votes@),
{
    let mut i: usize = 0;
    while i < votes.len()
        invariant
            i <= votes@.len(),
            forall|k: int| 0 <= k < i ==> votes@[k] != SkipInput::Skip,
        decreases votes@.len() - i,
    {
        if votes[i] == SkipInput::Skip {
            return SkipInput::Skip;
        }
        i = i + 1;
    }
    SkipInput::DontSkip
}

/// The aggregate verdict is to drop the stroke exactly when at least
/// one handler both had its intercept flag set and saw its callback
/// return a truthy value.
pub proof fn lemma_skip_iff_intercepted_truthy(outcomes: Seq<(bool, bool)>)
    ensures
        spec_aggregate(outcomes.map_values(|o: (bool, bool)| spec_vote(o.0, o.1)))
            == SkipInput::Skip <==> exists|i: int| 0 <= i < outcomes.len() && outcomes[i].0
            && outcomes[i].1,
{
    let votes = outcomes.map_values(|o: (bool, bool)| spec_vote(o.0, o.1));
    if exists|i: int| 0 <= i < outcomes.len() && outcomes[i].0 && outcomes[i].1 {
        let i = choose|i: int| 0 <= i < outcomes.len() && outcomes[i].0 && outcomes[i].1;
        assert(votes[i] == SkipInput::Skip);
    }
    if spec_aggregate(votes) == SkipInput::Skip {
        let i = choose|i: int| 0 <= i < votes.len() && votes[i] == SkipInput::Skip;
        assert(outcomes[i].0 && outcomes[i].1);
    }
}

/// What a raw registration argument looked like to the script API:
/// missing, a string, or something else.
pub enum JsOptionArg {
    Absent,
    Str(String),
    OtherType,
}

/// Builds a handler from the arguments of a registration call. The
/// key filter must be missing or `"*"`; anything else is a usage
/// error. A missing or `"*"` device filter listens to every device,
/// any other string filters by name, and a non-string is a usage
/// error.
pub fn make_key_handler(
    device_filter: JsOptionArg,
    key_filter: JsOptionArg,
    intercept: bool,
    callback: JsObject,
) -> (r: Result<KeyHandler, RekeyError>)
    ensures
        r matches Ok(h) ==> ({
            &&& h.intercept == intercept
            &&& h.callback == callback
            &&& h.key_filter is All
            &&& match device_filter {
                JsOptionArg::Absent => h.device_filter is All,
                JsOptionArg::Str(s) => if s@ == "*"@ {
                    h.device_filter is All
                } else {
                    h.device_filter matches KeyHandlerDeviceFilter::Contains(n) && n@ == s@
                },
                JsOptionArg::OtherType => false,
            }
        }),
        r is Ok <==> ({
            &&& !(device_filter is OtherType)
            &&& match key_filter {
                JsOptionArg::Absent => true,
                JsOptionArg::Str(s) => s@ == "*"@,
                JsOptionArg::OtherType => false,
            }
        }),
        r matches Err(e) ==> e is GenericError,
{
    let key_filter_ok = match &key_filter {
        JsOptionArg::Absent => true,
        JsOptionArg::Str(s) => str_eq(s.as_str(), "*"),
        JsOptionArg::OtherType => false,
    };
    if !key_filter_ok {
        return Err(
            RekeyError::GenericError(
                String::from_str("invalid keyFilter arguments for rekeyRegister, expected \"*\""),
            ),
        );
    }
    let parsed_device_filter = match device_filter {
        JsOptionArg::Absent => KeyHandlerDeviceFilter::All,
        JsOptionArg::Str(s) => {
            if str_eq(s.as_str(), "*") {
                KeyHandlerDeviceFilter::All
            } else {
                KeyHandlerDeviceFilter::Contains(s)
            }
        },
        JsOptionArg::OtherType => {
            return Err(
                RekeyError::GenericError(
                    String::from_str("invalid deviceFilter arguments for rekeyRegister."),
                ),
            );
        },
    };
    Ok(
        KeyHandler {
            device_filter: parsed_device_filter,
            key_filter: KeyHandlerKeyFilter::All,
            intercept,
            callback,
        },
    )
}

} // verus!
