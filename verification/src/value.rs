//! Plain-data model of the engine values that the core reads.

use vstd::prelude::*;
use crate::buffer::ZeroCopyBuf;

verus! {

/// Stands for a value that the engine owns and the core only passes on.
pub type Handle = u64;

/// What a promise holds at the moment it is inspected.
#[derive(Clone, Copy, Debug, PartialEq, Eq, Structural)]
pub enum PromiseSnapshot {
    Pending,
    Fulfilled(Handle),
    Rejected(Handle),
}

/// The two objects that a proxy is made of.
#[derive(Clone, Copy, Debug, PartialEq, Eq, Structural)]
pub struct ProxyParts {
    pub target: Handle,
    pub handler: Handle,
}

/// An argument as script code passed it, classified by the engine.
#[derive(Debug)]
pub enum ScriptValue<'a> {
    Undefined,
    Null,
    Boolean(bool),
    Integer(i64),
    Text(String),
    Function(Handle),
    BufferView(ZeroCopyBuf<'a>),
    Promise(PromiseSnapshot),
    Proxy(ProxyParts),
    Object(Handle),
}

/// The argument at `index`; script code that passes fewer arguments passes
/// `undefined` there.
pub open spec fn argument<'a>(args: Seq<ScriptValue<'a>>, index: int) -> ScriptValue<'a> {
    if 0 <= index < args.len() {
        args[index]
    } else {
        ScriptValue::Undefined
    }
}

/// Reads the argument at `index`, if script code passed that many.
pub fn get_argument<'b, 'a>(args: &'b Vec<ScriptValue<'a>>, index: usize) -> (value: Option<
    &'b ScriptValue<'a>,
>)
    ensures
        match value {
            Some(found) => index < args@.len() && *found == argument(args@, index as int),
            None => index >= args@.len() && argument(args@, index as int) is Undefined,
        },
{
    if index < args.len() {
        Some(&args[index])
    } else {
        None
    }
}

} // verus!
