//! Promise rejection tracker: which rejected promises have no handler yet.

use vstd::prelude::*;
use std::collections::HashMap;
use crate::value::Handle;

verus! {

broadcast use vstd::std_specs::hash::group_hash_axioms;

/// The events in the life of a promise that the engine reports.
#[derive(Clone, Copy, Debug, PartialEq, Eq, Structural)]
pub enum PromiseRejectEvent {
    PromiseRejectWithNoHandler,
    PromiseHandlerAddedAfterReject,
    PromiseRejectAfterResolved,
    PromiseResolveAfterResolved,
}

/// One report of the engine: the promise, what happened to it, and the
/// rejection value where there is one.
#[derive(Clone, Copy, Debug, PartialEq, Eq, Structural)]
pub struct PromiseRejectMessage {
    pub promise: Handle,
    pub event: PromiseRejectEvent,
    pub value: Option<Handle>,
}

/// The rejections that are pending after the engine reported `message`.
pub open spec fn after_event(pending: Map<Handle, Handle>, message: PromiseRejectMessage) -> Map<
    Handle,
    Handle,
> {
    match message.event {
        PromiseRejectEvent::PromiseRejectWithNoHandler => pending.insert(
            message.promise,
            message.value->Some_0,
        ),
        PromiseRejectEvent::PromiseHandlerAddedAfterReject => pending.remove(message.promise),
        PromiseRejectEvent::PromiseRejectAfterResolved => pending,
        PromiseRejectEvent::PromiseResolveAfterResolved => pending,
    }
}

/// A message that tells that `promise` was rejected with `value` and had no
/// handler.
pub open spec fn rejected_unhandled(promise: Handle, value: Handle) -> PromiseRejectMessage {
    PromiseRejectMessage {
        promise,
        event: PromiseRejectEvent::PromiseRejectWithNoHandler,
        value: Some(value),
    }
}

/// A message that tells that `promise` got a handler after it was rejected.
pub open spec fn handler_added(promise: Handle) -> PromiseRejectMessage {
    PromiseRejectMessage {
        promise,
        event: PromiseRejectEvent::PromiseHandlerAddedAfterReject,
        value: None,
    }
}

/// A promise that is rejected without a handler is pending with its value,
/// and a handler that is attached afterwards takes it out again; the other
/// pending rejections are not touched by either.
pub proof fn handler_clears_rejection(pending: Map<Handle, Handle>, promise: Handle, value: Handle)
    ensures
        after_event(pending, rejected_unhandled(promise, value)).contains_key(promise),
        after_event(pending, rejected_unhandled(promise, value))[promise] == value,
        !after_event(
            after_event(pending, rejected_unhandled(promise, value)),
            handler_added(promise),
        ).contains_key(promise),
        after_event(
            after_event(pending, rejected_unhandled(promise, value)),
            handler_added(promise),
        ) == pending.remove(promise),
{
    assert(pending.insert(promise, value).remove(promise) =~= pending.remove(promise));
}

/// A promise that resolves or is rejected after it was settled changes
/// nothing.
pub proof fn anomalies_change_nothing(pending: Map<Handle, Handle>, message: PromiseRejectMessage)
    requires
        message.event is PromiseRejectAfterResolved || message.event is PromiseResolveAfterResolved,
    ensures
        after_event(pending, message) == pending,
{
}

/// The rejected promises without a handler, each with its rejection value.
pub struct RejectionTracker {
    pub pending_promise_exceptions: HashMap<Handle, Handle>,
}

impl View for RejectionTracker {
    type V = Map<Handle, Handle>;

    open spec fn view(&self) -> Map<Handle, Handle> {
        self.pending_promise_exceptions@
    }
}

impl RejectionTracker {
    /// A tracker without pending rejections.
    pub fn new() -> (tracker: Self)
        ensures
            tracker@ == Map::<Handle, Handle>::empty(),
    {
        RejectionTracker { pending_promise_exceptions: HashMap::new() }
    }

    /// Whether any rejection is pending: the condition that the event loop
    /// inspects at its checkpoint.
    pub fn has_pending(&self) -> (pending: bool)
        ensures
            pending == (self@.len() > 0),
    {
        self.pending_promise_exceptions.len() > 0
    }

    /// The rejection value of `promise`, if its rejection is pending.
    pub fn get(&self, promise: Handle) -> (value: Option<Handle>)
        ensures
            value == (if self@.contains_key(promise) {
                Some(self@[promise])
            } else {
                None
            }),
    {
        match self.pending_promise_exceptions.get(&promise) {
            Some(value) => Some(*value),
            None => None,
        }
    }

    /// Takes the pending rejection of `promise` out, for the host to report.
    pub fn take(&mut self, promise: Handle) -> (value: Option<Handle>)
        ensures
            final(self)@ == old(self)@.remove(promise),
            value == (if old(self)@.contains_key(promise) {
                Some(old(self)@[promise])
            } else {
                None
            }),
    {
        self.pending_promise_exceptions.remove(&promise)
    }
}

/// Records what the engine reports about a promise. A rejection without a
/// handler comes with its value.
pub fn promise_reject_callback(tracker: &mut RejectionTracker, message: PromiseRejectMessage)
    requires
        message.event is PromiseRejectWithNoHandler ==> message.value is Some,
    ensures
        final(tracker)@ == after_event(old(tracker)@, message),
{
    match message.event {
        PromiseRejectEvent::PromiseRejectWithNoHandler => {
            if let Some(error) = message.value {
                tracker.pending_promise_exceptions.insert(message.promise, error);
            }
        },
        PromiseRejectEvent::PromiseHandlerAddedAfterReject => {
            tracker.pending_promise_exceptions.remove(&message.promise);
        },
        PromiseRejectEvent::PromiseRejectAfterResolved => {},
        PromiseRejectEvent::PromiseResolveAfterResolved => {},
    }
}

} // verus!
