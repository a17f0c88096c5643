//! The seam to the embedded JavaScript engine. Script contexts,
//! objects and values are opaque here: every call into the engine goes
//! through one of the trusted wrappers below, and everything the
//! library concludes about scripts rests on the plain values they
//! hand back.

use boa_engine::{Context, JsError, JsObject, JsString, JsValue, Source};
use vstd::prelude::*;
use vstd::string::StringExecFns;

use crate::error::RekeyError;

verus! {

#[verifier::external_type_specification]
#[verifier::external_body]
pub struct ExContext<'a>(Context<'a>);

#[verifier::external_type_specification]
#[verifier::external_body]
pub struct ExJsObject(JsObject);

#[verifier::external_type_specification]
#[verifier::external_body]
pub struct ExJsValue(JsValue);

#[verifier::external_type_specification]
#[verifier::external_body]
pub struct ExJsError(JsError);

/// Relies on `boa_engine::Context::default`: a fresh evaluation
/// context with the standard globals and no script state.
#[verifier::external_body]
pub(crate) fn new_context() -> Context<'static> {
    Context::default()
}

/// Relies on `boa_engine::Context::eval`: parses and runs source text
/// in the context, returning the completion value or the thrown error.
/// What it returns depends on the script and the context's state, so
/// nothing is assumed of the outcome.
#[verifier::external_body]
pub(crate) fn context_eval(ctx: &mut Context<'_>, code: &str) -> Result<JsValue, JsError> {
    ctx.eval(Source::from_bytes(code))
}

/// Relies on `boa_engine::JsObject::default`: a fresh ordinary object.
#[verifier::external_body]
pub(crate) fn new_js_object() -> JsObject {
    JsObject::default()
}

/// Relies on `boa_engine::JsObject::set`: stores a property on the
/// object; with the throw flag off it reports failure in the result
/// rather than panicking.
#[verifier::external_body]
pub(crate) fn object_set(
    obj: &JsObject,
    key: &str,
    value: JsValue,
    ctx: &mut Context<'_>,
) -> Result<bool, JsError> {
    obj.set(JsString::from(key), value, false, ctx)
}

/// Relies on `From<i32> for JsValue`: wraps an integer.
#[verifier::external_body]
pub(crate) fn js_value_from_i32(i: i32) -> JsValue {
    JsValue::from(i)
}

/// Relies on `From<bool> for JsValue`: wraps a boolean.
#[verifier::external_body]
pub(crate) fn js_value_from_bool(b: bool) -> JsValue {
    JsValue::from(b)
}

/// Relies on `From<char> for JsValue`: wraps a character as a
/// one-character string value.
#[verifier::external_body]
pub(crate) fn js_value_from_char(c: char) -> JsValue {
    JsValue::from(c)
}

/// Relies on `From<String> for JsValue`: wraps text.
#[verifier::external_body]
pub(crate) fn js_value_from_string(s: &str) -> JsValue {
    JsValue::from(JsString::from(s))
}

/// Relies on `From<JsObject> for JsValue`: wraps an object.
#[verifier::external_body]
pub(crate) fn js_value_from_object(o: JsObject) -> JsValue {
    JsValue::from(o)
}

/// Relies on `boa_engine::JsObject::call`: invokes the object as a
/// function with an undefined receiver and at most one argument. The
/// result is whatever the script computes, or the error it throws;
/// nothing is assumed of either.
#[verifier::external_body]
pub(crate) fn call_function(
    cb: &JsObject,
    arg: Option<JsValue>,
    ctx: &mut Context<'_>,
) -> Result<JsValue, JsError> {
    match arg {
        Some(v) => cb.call(&JsValue::undefined(), &[v], ctx),
        None => cb.call(&JsValue::undefined(), &[], ctx),
    }
}

/// Relies on `boa_engine::JsValue::to_boolean`: the ECMAScript
/// truthiness of a value.
#[verifier::external_body]
pub(crate) fn value_to_boolean(v: &JsValue) -> bool {
    v.to_boolean()
}

/// Relies on `boa_engine::JsValue::as_callable`: the value as a
/// callable object, when it is one.
#[verifier::external_body]
pub(crate) fn value_as_callable(v: &JsValue) -> Option<JsObject> {
    v.as_callable().cloned()
}

/// Relies on the `Display` impl of `boa_engine::JsError`: the error's
/// message text.
#[verifier::external_body]
pub(crate) fn js_error_message(e: &JsError) -> String {
    format!("{}", e)
}

/// Evaluates a script's source in a context; an engine error comes
/// back as a script failure naming the script's path.
pub fn eval_script(ctx: &mut Context<'_>, code: &str, path: &str) -> (r: Result<(), RekeyError>)
    ensures
        r matches Err(e) ==> e matches RekeyError::ScriptError(p, _) && p@ == path@,
{
    match context_eval(ctx, code) {
        Ok(_) => Ok(()),
        Err(e) => Err(
            RekeyError::ScriptError(String::from_str(path), js_error_message(&e)),
        ),
    }
}

/// Evaluates an expression and hands back the resulting function
/// object; a value that is not callable is rejected.
pub fn compile_callback(ctx: &mut Context<'_>, code: &str) -> (r: Result<JsObject, RekeyError>)
    ensures
        r matches Err(e) ==> e is GenericError || e is ScriptError,
{
    match context_eval(ctx, code) {
        Ok(v) => {
            match value_as_callable(&v) {
                Some(f) => Ok(f),
                None => Err(
                    RekeyError::GenericError(
                        String::from_str("expression did not evaluate to a function"),
                    ),
                ),
            }
        },
        Err(e) => Err(RekeyError::ScriptError(String::new(), js_error_message(&e))),
    }
}

/// Evaluates an expression and reads its truthiness; an engine error
/// is surfaced.
pub fn eval_to_boolean(ctx: &mut Context<'_>, code: &str) -> (r: Result<bool, RekeyError>)
    ensures
        r matches Err(e) ==> e is ScriptError,
{
    match context_eval(ctx, code) {
        Ok(v) => Ok(value_to_boolean(&v)),
        Err(e) => Err(RekeyError::ScriptError(String::new(), js_error_message(&e))),
    }
}

} // verus!
