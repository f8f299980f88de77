//! Bindings that let script code look into promises and proxies.

use vstd::prelude::*;
use crate::error::BindingError;
use crate::value::{argument, get_argument, Handle, PromiseSnapshot, ScriptValue};

verus! {

/// The two slots that describe a promise: its state as a number, and its
/// result where it has one.
#[derive(Clone, Copy, Debug, PartialEq, Eq, Structural)]
pub struct PromiseDetails {
    /// 0 for pending, 1 for fulfilled, 2 for rejected.
    pub state: i32,
    /// The value or the reason; no slot is set for a pending promise.
    pub result: Option<Handle>,
}

/// The details of a promise in the given state.
pub open spec fn details_of(snapshot: PromiseSnapshot) -> PromiseDetails {
    match snapshot {
        PromiseSnapshot::Pending => PromiseDetails { state: 0, result: None },
        PromiseSnapshot::Fulfilled(value) => PromiseDetails { state: 1, result: Some(value) },
        PromiseSnapshot::Rejected(reason) => PromiseDetails { state: 2, result: Some(reason) },
    }
}

/// What the promise binding returns for `args`.
pub open spec fn promise_details_of(args: Seq<ScriptValue>) -> Result<
    PromiseDetails,
    BindingError,
> {
    match argument(args, 0) {
        ScriptValue::Promise(snapshot) => Ok(details_of(snapshot)),
        _ => Err(BindingError::InvalidArgument),
    }
}

/// Describes the promise in the first argument; any other argument is an
/// error.
pub fn get_promise_details(args: &Vec<ScriptValue>) -> (details: Result<
    PromiseDetails,
    BindingError,
>)
    ensures
        details == promise_details_of(args@),
{
    match get_argument(args, 0) {
        Some(ScriptValue::Promise(snapshot)) => {
            match snapshot {
                PromiseSnapshot::Pending => Ok(PromiseDetails { state: 0, result: None }),
                PromiseSnapshot::Fulfilled(value) => Ok(
                    PromiseDetails { state: 1, result: Some(*value) },
                ),
                PromiseSnapshot::Rejected(reason) => Ok(
                    PromiseDetails { state: 2, result: Some(*reason) },
                ),
            }
        },
        _ => Err(BindingError::InvalidArgument),
    }
}

/// What the proxy binding returns for `args`: target and handler, in this
/// order, or nothing for an argument that is no proxy.
pub open spec fn proxy_details_of(args: Seq<ScriptValue>) -> Option<(Handle, Handle)> {
    match argument(args, 0) {
        ScriptValue::Proxy(parts) => Some((parts.target, parts.handler)),
        _ => None,
    }
}

/// Takes the proxy in the first argument apart. An argument that is no proxy
/// is no error: script code then gets no value.
pub fn get_proxy_details(args: &Vec<ScriptValue>) -> (details: Option<(Handle, Handle)>)
    ensures
        details == proxy_details_of(args@),
{
    match get_argument(args, 0) {
        Some(ScriptValue::Proxy(parts)) => Some((parts.target, parts.handler)),
        _ => None,
    }
}

} // verus!
