//! The script worker: one owner of every script context, every
//! handler and every timer. It serves suppression queries, fires
//! timers, and stops when told to exit; queries are answered in
//! arrival order and an exit only takes effect when its message is
//! processed, so no query that arrived first is ever lost.

use boa_engine::Context;
use vstd::prelude::*;

use crate::devices::Device;
use vstd::string::StringExecFns;

use crate::engine::{
    call_function, js_error_message, js_value_from_char, js_value_from_i32,
    js_value_from_object, js_value_from_string, new_context, new_js_object, object_set,
    value_to_boolean,
};
use crate::error::RekeyError;
use crate::handlers::{
    aggregate_verdict, device_filter_matches, handler_vote, spec_device_filter_matches,
    KeyHandler, KeyHandlerKeyFilter, SkipInput,
};
use crate::keys::{char_from_vcode, KeyDirection};
use crate::timers::{nearest_due, run_timers, Timer};
use crate::vkeys::vkey_name_for_code;

verus! {

/// All the state one script owns: its evaluation context, its
/// registered handlers, its armed timers.
pub struct Script<'a> {
    pub context: Context<'a>,
    pub handlers: Vec<KeyHandler>,
    pub timers: Vec<Timer>,
}

impl Script<'static> {
    /// A fresh script: a new context, nothing registered.
    pub fn new() -> (r: Script<'static>)
        ensures
            r.handlers@.len() == 0,
            r.timers@.len() == 0,
    {
        Script { context: new_context(), handlers: Vec::new(), timers: Vec::new() }
    }
}

/// One stroke as the worker sees it.
pub struct InputMessage {
    pub vkey_code: u16,
    pub direction: KeyDirection,
    pub device: Option<Device>,
}

/// What the worker can be told.
pub enum WorkerMessage {
    Exit,
    HandleInput(InputMessage),
}

/// What one processed message produces.
pub enum WorkerStep {
    Reply(SkipInput),
    Exited,
}

/// The printable name of a stroke's device, when it has one.
pub open spec fn spec_device_name(device: Option<Device>) -> Option<Seq<char>> {
    match device {
        Some(d) => Some(d.device_name@),
        None => None,
    }
}

/// Prefixes compose: growing a log twice keeps the first state a
/// prefix of the last.
proof fn lemma_prefix_trans<A>(a: Seq<A>, b: Seq<A>, c: Seq<A>)
    requires
        a.is_prefix_of(b),
        b.is_prefix_of(c),
    ensures
        a.is_prefix_of(c),
{
    assert(b.subrange(0, a.len() as int) =~= c.subrange(0, a.len() as int));
}

/// Notes one failed engine call in the error log, for the host to
/// write out; dispatch goes on regardless.
fn push_handler_error(errors: &mut Vec<String>, context_text: &str, e: &boa_engine::JsError)
    ensures
        old(errors)@.is_prefix_of(final(errors)@),
{
    let mut message = String::from_str(context_text);
    message.append(js_error_message(e).as_str());
    errors.push(message);
    proof {
        assert(final(errors)@.subrange(0, old(errors)@.len() as int) =~= old(errors)@);
    }
}

/// Runs one handler against a stroke and returns its vote. A handler
/// whose device filter rejects the stroke, whose callback fails, or
/// whose intercept flag is off votes to let the stroke through; only
/// an intercepting handler whose callback answers truthy votes to
/// drop it.
fn run_key_handler(
    ctx: &mut Context<'_>,
    handler: &KeyHandler,
    vkey_code: u16,
    direction: KeyDirection,
    device_name: Option<&String>,
    errors: &mut Vec<String>,
) -> (vote: SkipInput)
    ensures
        vote == SkipInput::Skip ==> handler.intercept && spec_device_filter_matches(
            handler.device_filter,
            match device_name {
                Some(n) => Some(n@),
                None => None,
            },
        ),
        !spec_device_filter_matches(
            handler.device_filter,
            match device_name {
                Some(n) => Some(n@),
                None => None,
            },
        ) ==> vote == SkipInput::DontSkip,
        old(errors)@.is_prefix_of(final(errors)@),
{
    proof {
        assert(old(errors)@.is_prefix_of(old(errors)@)) by {
            assert(old(errors)@.subrange(0, old(errors)@.len() as int) =~= old(errors)@);
        }
    }
    match handler.key_filter {
        KeyHandlerKeyFilter::All => {},
    }
    if !device_filter_matches(&handler.device_filter, device_name) {
        return SkipInput::DontSkip;
    }
    let event = new_js_object();
    if let Err(e) = object_set(&event, "vKeyCode", js_value_from_i32(vkey_code as i32), ctx) {
        push_handler_error(errors, "failed to set event field: ", &e);
        return SkipInput::DontSkip;
    }
    if let Some(name) = vkey_name_for_code(vkey_code) {
        if let Err(e) = object_set(&event, "key", js_value_from_string(name.as_str()), ctx) {
            push_handler_error(errors, "failed to set event field: ", &e);
            return SkipInput::DontSkip;
        }
    }
    if let Some(ch) = char_from_vcode(vkey_code) {
        if let Err(e) = object_set(&event, "ch", js_value_from_char(ch), ctx) {
            push_handler_error(errors, "failed to set event field: ", &e);
            return SkipInput::DontSkip;
        }
    }
    if let Err(e) = object_set(
        &event,
        "direction",
        js_value_from_string(direction.as_lowercase_str()),
        ctx,
    ) {
        push_handler_error(errors, "failed to set event field: ", &e);
        return SkipInput::DontSkip;
    }
    if let Some(name) = device_name {
        if let Err(e) = object_set(&event, "deviceName", js_value_from_string(name.as_str()), ctx)
         {
            push_handler_error(errors, "failed to set event field: ", &e);
            return SkipInput::DontSkip;
        }
    }
    match call_function(&handler.callback, Some(js_value_from_object(event)), ctx) {
        Ok(result) => handler_vote(handler.intercept, value_to_boolean(&result)),
        Err(e) => {
            push_handler_error(errors, "failed to run callback: ", &e);
            SkipInput::DontSkip
        },
    }
}

/// Runs every handler of one script, in registration order, and
/// combines their votes. The script's handlers and timers are left as
/// they were; the verdict is to drop the stroke only if some handler
/// of the script may intercept.
fn run_script_handlers(rt: &mut Script<'_>, msg: &InputMessage, errors: &mut Vec<String>) -> (r:
    SkipInput)
    ensures
        final(rt).handlers == old(rt).handlers,
        final(rt).timers == old(rt).timers,
        r == SkipInput::Skip ==> exists|j: int|
            0 <= j < old(rt).handlers@.len() && old(rt).handlers@[j].intercept
                && spec_device_filter_matches(
                old(rt).handlers@[j].device_filter,
                spec_device_name(msg.device),
            ),
        old(errors)@.is_prefix_of(final(errors)@),
{
    let ghost errors0 = errors@;
    proof {
        assert(errors0.is_prefix_of(errors0)) by {
            assert(errors0.subrange(0, errors0.len() as int) =~= errors0);
        }
    }
    let device_name: Option<&String> = match &msg.device {
        Some(d) => Some(&d.device_name),
        None => None,
    };
    proof {
        assert((match device_name {
            Some(n) => Some(n@),
            None => None,
        }) == spec_device_name(msg.device));
    }
    let mut votes: Vec<SkipInput> = Vec::new();
    let n = rt.handlers.len();
    let mut j: usize = 0;
    while j < n
        invariant
            rt.handlers == old(rt).handlers,
            rt.timers == old(rt).timers,
            n == rt.handlers@.len(),
            j <= n,
            votes@.len() == j as int,
            (match device_name {
                Some(n) => Some(n@),
                None => None,
            }) == spec_device_name(msg.device),
            forall|k: int|
                0 <= k < j ==> (votes@[k] == SkipInput::Skip ==> rt.handlers@[k].intercept
                    && spec_device_filter_matches(
                    rt.handlers@[k].device_filter,
                    spec_device_name(msg.device),
                )),
            errors0 == old(errors)@,
            errors0.is_prefix_of(errors@),
        decreases n - j,
    {
        let ghost errors_before = errors@;
        let handler_ref = &rt.handlers[j];
        let vote = run_key_handler(
            &mut rt.context,
            handler_ref,
            msg.vkey_code,
            msg.direction,
            device_name,
            errors,
        );
        proof {
            lemma_prefix_trans(errors0, errors_before, errors@);
        }
        votes.push(vote);
        j = j + 1;
    }
    let verdict = aggregate_verdict(&votes);
    proof {
        if verdict == SkipInput::Skip {
            let i = choose|i: int| 0 <= i < votes@.len() && votes@[i] == SkipInput::Skip;
            assert(rt.handlers@[i].intercept);
        }
    }
    verdict
}

/// Serves one suppression query: every handler of every script runs,
/// scripts in load order, handlers in registration order, and the
/// stroke is dropped exactly when some script voted to drop it. With
/// no scripts loaded — or none with an intercepting handler — the
/// stroke always passes through. No script's handlers or timers
/// change.
pub fn should_skip_input(
    scripts: &mut Vec<Script<'_>>,
    vkey_code: u16,
    direction: KeyDirection,
    device: Option<Device>,
    errors: &mut Vec<String>,
) -> (r: Result<SkipInput, RekeyError>)
    ensures
        r is Ok,
        final(scripts)@.len() == old(scripts)@.len(),
        forall|i: int|
            0 <= i < old(scripts)@.len() ==> #[trigger] final(scripts)@[i].handlers == old(
                scripts,
            )@[i].handlers && final(scripts)@[i].timers == old(scripts)@[i].timers,
        r == Ok::<SkipInput, RekeyError>(SkipInput::Skip) ==> exists|i: int, j: int|
            0 <= i < old(scripts)@.len() && 0 <= j < old(scripts)@[i].handlers@.len() && old(
                scripts,
            )@[i].handlers@[j].intercept && spec_device_filter_matches(
                old(scripts)@[i].handlers@[j].device_filter,
                spec_device_name(device),
            ),
        old(scripts)@.len() == 0 ==> r == Ok::<SkipInput, RekeyError>(SkipInput::DontSkip),
        old(errors)@.is_prefix_of(final(errors)@),
{
    let ghost errors0 = errors@;
    proof {
        assert(errors0.is_prefix_of(errors0)) by {
            assert(errors0.subrange(0, errors0.len() as int) =~= errors0);
        }
    }
    let msg = InputMessage { vkey_code, direction, device };
    let mut result = SkipInput::DontSkip;
    let n = scripts.len();
    let mut i: usize = 0;
    while i < n
        invariant
            n == scripts@.len(),
            scripts@.len() == old(scripts)@.len(),
            i <= n,
            msg.device == device,
            forall|k: int|
                0 <= k < n ==> #[trigger] scripts@[k].handlers == old(scripts)@[k].handlers
                    && scripts@[k].timers == old(scripts)@[k].timers,
            result == SkipInput::Skip ==> exists|a: int, b: int|
                0 <= a < n && 0 <= b < old(scripts)@[a].handlers@.len() && old(
                    scripts,
                )@[a].handlers@[b].intercept && spec_device_filter_matches(
                    old(scripts)@[a].handlers@[b].device_filter,
                    spec_device_name(device),
                ),
            errors0 == old(errors)@,
            errors0.is_prefix_of(errors@),
        decreases n - i,
    {
        let ghost errors_before = errors@;
        let script = &mut scripts[i];
        let script_verdict = run_script_handlers(script, &msg, errors);
        proof {
            lemma_prefix_trans(errors0, errors_before, errors@);
        }
        if script_verdict == SkipInput::Skip {
            result = SkipInput::Skip;
        }
        i = i + 1;
    }
    Ok(result)
}

/// Processes one message: an input query always produces a reply, and
/// only an exit stops the worker. State changes only as dispatch is
/// allowed to change it.
pub fn worker_step(scripts: &mut Vec<Script<'_>>, msg: WorkerMessage, errors: &mut Vec<String>)
    -> (r: WorkerStep)
    ensures
        msg is Exit <==> r is Exited,
        msg is HandleInput <==> r is Reply,
        final(scripts)@.len() == old(scripts)@.len(),
        forall|i: int|
            0 <= i < old(scripts)@.len() ==> #[trigger] final(scripts)@[i].handlers == old(
                scripts,
            )@[i].handlers && final(scripts)@[i].timers == old(scripts)@[i].timers,
        old(errors)@.is_prefix_of(final(errors)@),
{
    match msg {
        WorkerMessage::Exit => {
            proof {
                assert(old(errors)@.subrange(0, old(errors)@.len() as int) =~= old(errors)@);
            }
            WorkerStep::Exited
        },
        WorkerMessage::HandleInput(input) => {
            let verdict = match should_skip_input(
                scripts,
                input.vkey_code,
                input.direction,
                input.device,
                errors,
            ) {
                Ok(v) => v,
                Err(_) => SkipInput::DontSkip,
            };
            WorkerStep::Reply(verdict)
        },
    }
}

/// Whether each message of a queue, processed in order, is answered:
/// every message ahead of the first exit gets a reply, the exit stops
/// the worker, and nothing after it is processed.
pub open spec fn spec_run_queue(msgs: Seq<WorkerMessage>) -> Seq<bool>
    decreases msgs.len(),
{
    if msgs.len() == 0 {
        Seq::<bool>::empty()
    } else if msgs[0] is Exit {
        seq![false]
    } else {
        seq![true] + spec_run_queue(msgs.drop_first())
    }
}

/// No dispatch is lost on reload: an input query that arrives before
/// the exit message is processed — and replied to — before the exit
/// takes effect.
pub proof fn lemma_no_dispatch_lost(msgs: Seq<WorkerMessage>, j: int)
    requires
        0 <= j < msgs.len(),
        msgs[j] is HandleInput,
        forall|m: int| 0 <= m < j ==> !(msgs[m] is Exit),
    ensures
        spec_run_queue(msgs).len() > j,
        spec_run_queue(msgs)[j],
    decreases j,
{
    if j == 0 {
        lemma_run_queue_len(msgs.drop_first());
    } else {
        lemma_no_dispatch_lost(msgs.drop_first(), j - 1);
        assert(!(msgs[0] is Exit));
    }
}

proof fn lemma_run_queue_len(msgs: Seq<WorkerMessage>)
    ensures
        spec_run_queue(msgs).len() >= 0,
        msgs.len() > 0 ==> spec_run_queue(msgs).len() >= 1,
    decreases msgs.len(),
{
    if msgs.len() > 0 && !(msgs[0] is Exit) {
        lemma_run_queue_len(msgs.drop_first());
    }
}

/// How long the worker may sleep before the next timer anywhere is
/// due: nothing to wait for without timers, zero once one is overdue.
pub fn get_nearest_duration(scripts: &Vec<Script<'_>>, now_ms: u64) -> (r: Option<u64>)
    ensures
        match r {
            Some(d) => (exists|i: int, j: int|
                0 <= i < scripts@.len() && 0 <= j < scripts@[i].timers@.len() && d == (
                if scripts@[i].timers@[j].due_ms > now_ms {
                    (scripts@[i].timers@[j].due_ms - now_ms) as u64
                } else {
                    0u64
                })) && forall|i: int, j: int|
                0 <= i < scripts@.len() && 0 <= j < scripts@[i].timers@.len() ==> d <= (
                if scripts@[i].timers@[j].due_ms > now_ms {
                    (scripts@[i].timers@[j].due_ms - now_ms) as u64
                } else {
                    0u64
                }),
            None => forall|i: int| 0 <= i < scripts@.len() ==> scripts@[i].timers@.len() == 0,
        },
{
    match nearest_timer_deadline(scripts) {
        Some(deadline) => Some(crate::timers::wait_duration(deadline, now_ms)),
        None => None,
    }
}

/// The earliest timer deadline across every script, if any timer is
/// armed anywhere.
pub fn nearest_timer_deadline(scripts: &Vec<Script<'_>>) -> (r: Option<u64>)
    ensures
        match r {
            Some(d) => (exists|i: int, j: int|
                0 <= i < scripts@.len() && 0 <= j < scripts@[i].timers@.len()
                    && scripts@[i].timers@[j].due_ms == d) && forall|i: int, j: int|
                0 <= i < scripts@.len() && 0 <= j < scripts@[i].timers@.len() ==> d
                    <= scripts@[i].timers@[j].due_ms,
            None => forall|i: int| 0 <= i < scripts@.len() ==> scripts@[i].timers@.len() == 0,
        },
{
    let mut best: Option<u64> = None;
    let n = scripts.len();
    let mut i: usize = 0;
    while i < n
        invariant
            n == scripts@.len(),
            i <= n,
            match best {
                Some(d) => (exists|a: int, b: int|
                    0 <= a < i && 0 <= b < scripts@[a].timers@.len()
                        && scripts@[a].timers@[b].due_ms == d) && forall|a: int, b: int|
                    0 <= a < i && 0 <= b < scripts@[a].timers@.len() ==> d
                        <= scripts@[a].timers@[b].due_ms,
                None => forall|a: int| 0 <= a < i ==> scripts@[a].timers@.len() == 0,
            },
        decreases n - i,
    {
        match nearest_due(&scripts[i].timers) {
            Some(d) => {
                best = match best {
                    Some(b) => if d < b {
                        Some(d)
                    } else {
                        Some(b)
                    },
                    None => Some(d),
                };
            },
            None => {},
        }
        i = i + 1;
    }
    best
}

/// Fires, in every script, every timer that has come due, exactly
/// once each and none early; only the not-yet-due timers stay armed.
/// Handlers are untouched.
pub fn run_all_timers(scripts: &mut Vec<Script<'_>>, now_ms: u64, errors: &mut Vec<String>)
    ensures
        final(scripts)@.len() == old(scripts)@.len(),
        forall|i: int|
            0 <= i < old(scripts)@.len() ==> #[trigger] final(scripts)@[i].handlers == old(
                scripts,
            )@[i].handlers,
        forall|i: int|
            0 <= i < old(scripts)@.len() ==> #[trigger] final(scripts)@[i].timers@ == old(
                scripts,
            )@[i].timers@.filter(|t: Timer| t.due_ms > now_ms),
        old(errors)@.is_prefix_of(final(errors)@),
{
    let ghost errors0 = errors@;
    proof {
        assert(errors0.is_prefix_of(errors0)) by {
            assert(errors0.subrange(0, errors0.len() as int) =~= errors0);
        }
    }
    let n = scripts.len();
    let mut i: usize = 0;
    while i < n
        invariant
            n == scripts@.len(),
            scripts@.len() == old(scripts)@.len(),
            i <= n,
            forall|k: int|
                0 <= k < n ==> #[trigger] scripts@[k].handlers == old(scripts)@[k].handlers,
            forall|k: int|
                i <= k < n ==> #[trigger] scripts@[k].timers@ == old(scripts)@[k].timers@,
            forall|k: int|
                0 <= k < i ==> #[trigger] scripts@[k].timers@ == old(scripts)@[k].timers@.filter(
                    |t: Timer| t.due_ms > now_ms,
                ),
            errors0 == old(errors)@,
            errors0.is_prefix_of(errors@),
        decreases n - i,
    {
        let ghost errors_before = errors@;
        let script = &mut scripts[i];
        let timers = &mut script.timers;
        let _fired = run_timers(timers, &mut script.context, now_ms, errors);
        proof {
            lemma_prefix_trans(errors0, errors_before, errors@);
        }
        i = i + 1;
    }
}

} // verus!
