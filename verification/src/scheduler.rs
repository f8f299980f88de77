//! Pending operation scheduler: the operations that are in flight, in two
//! collections of which only one keeps the event loop alive, and the single
//! callback through which their results reach script code.

use vstd::prelude::*;
use vstd::multiset::Multiset;
use core::future::Future;
use core::task::{Context, Poll};
use futures::future::{FutureExt, LocalBoxFuture};
use futures::stream::{FuturesUnordered, StreamExt};
use crate::buffer::{to_engine_buffer, Uint8Array};
use crate::error::{BindingError, CallbackKind};
use crate::ops::OpId;
use crate::value::{argument, get_argument, Handle, ScriptValue};

verus! {

broadcast use vstd::multiset::group_multiset_axioms;

/// `core::task::Context`, the handle through which a future that is polled
/// asks to be woken. It is passed through to the futures and never looked
/// into.
#[verifier::external_type_specification]
#[verifier::external_body]
pub struct ExContext<'a>(Context<'a>);

/// A collection of operations in flight, in no order: a
/// `futures::stream::FuturesUnordered` of the operations' futures, each future
/// tagged with the id of its operation.
#[verifier::external_body]
pub struct PendingOps {
    futures: FuturesUnordered<LocalBoxFuture<'static, (OpId, Box<[u8]>)>>,
}

/// The ids of the operations in `ops`, each as often as it is in flight.
pub uninterp spec fn pending_ids(ops: PendingOps) -> Multiset<OpId>;

/// Pairs the bytes of a finished operation with its id.
pub fn tag_result(op_id: OpId, buf: Box<[u8]>) -> (tagged: (OpId, Box<[u8]>))
    ensures
        tagged.0 == op_id,
        tagged.1 == buf,
{
    (op_id, buf)
}

impl PendingOps {
    /// Calls `FuturesUnordered::new`.
    ///
    /// Trusted: the new collection holds no future.
    #[verifier::external_body]
    pub(crate) fn new() -> (ops: Self)
        ensures
            pending_ids(ops) == Multiset::<OpId>::empty(),
    {
        PendingOps { futures: FuturesUnordered::new() }
    }

    /// Calls `FuturesUnordered::push` with `future` mapped to yield `op_id`
    /// beside its bytes (`FutureExt::map`, `FutureExt::boxed_local`).
    ///
    /// Trusted: the collection gains one operation with that id and loses
    /// none. The future is not polled by this call.
    #[verifier::external_body]
    pub(crate) fn push<Fut: Future<Output = Box<[u8]>> + 'static>(
        &mut self,
        op_id: OpId,
        future: Fut,
    )
        ensures
            pending_ids(*final(self)) == pending_ids(*old(self)).insert(op_id),
    {
        self.futures.push(future.map(move |buf| tag_result(op_id, buf)).boxed_local());
    }

    /// Calls `FuturesUnordered::is_empty`.
    ///
    /// Trusted: it is true exactly when no operation is in the collection.
    #[verifier::external_body]
    pub(crate) fn is_empty(&self) -> (empty: bool)
        ensures
            empty == (pending_ids(*self).len() == 0),
    {
        self.futures.is_empty()
    }

    /// Calls `StreamExt::poll_next_unpin`, which polls the futures that were
    /// woken, and returns the first result that is ready.
    ///
    /// Trusted: a result that comes out belongs to an operation that was in
    /// the collection, carries that operation's id, and leaves the collection
    /// without that one operation. When nothing comes out, because no future
    /// is ready or none is left, the collection holds what it held. Which
    /// future is ready first is not determined. A future that panics when
    /// polled is outside this contract.
    #[verifier::external_body]
    pub(crate) fn poll_next(&mut self, cx: &mut Context<'_>) -> (ready: Option<(OpId, Box<[u8]>)>)
        ensures
            ready matches Some(done) ==> pending_ids(*old(self)).contains(done.0) && pending_ids(
                *final(self),
            ) == pending_ids(*old(self)).remove(done.0),
            ready is None ==> pending_ids(*final(self)) == pending_ids(*old(self)),
    {
        match self.futures.poll_next_unpin(cx) {
            Poll::Ready(Some(done)) => Some(done),
            Poll::Ready(None) => None,
            Poll::Pending => None,
        }
    }
}

/// The ids in flight in the two collections of a scheduler.
pub struct Queues {
    /// Operations for which the event loop stays alive.
    pub kept: Multiset<OpId>,
    /// Operations for which it does not.
    pub unref: Multiset<OpId>,
}

/// The queues after an operation with `op_id` was enqueued.
pub open spec fn enqueued(queues: Queues, op_id: OpId, keep_alive: bool) -> Queues {
    if keep_alive {
        Queues { kept: queues.kept.insert(op_id), unref: queues.unref }
    } else {
        Queues { kept: queues.kept, unref: queues.unref.insert(op_id) }
    }
}

/// The queues after an operation with `op_id` resolved and left its queue.
pub open spec fn resolved(queues: Queues, op_id: OpId, keep_alive: bool) -> Queues {
    if keep_alive {
        Queues { kept: queues.kept.remove(op_id), unref: queues.unref }
    } else {
        Queues { kept: queues.kept, unref: queues.unref.remove(op_id) }
    }
}

/// The event loop may end: nothing is in flight for which it has to stay.
pub open spec fn may_terminate(queues: Queues) -> bool {
    queues.kept.len() == 0
}

/// An operation enqueued without keeping the loop alive never changes whether
/// the loop may end.
pub proof fn unref_never_blocks(queues: Queues, op_id: OpId)
    ensures
        may_terminate(enqueued(queues, op_id, false)) == may_terminate(queues),
{
}

/// An operation enqueued as keeping the loop alive forbids the loop to end,
/// whatever else is enqueued or resolves meanwhile, and once it has resolved
/// the queues are what they were without it.
pub proof fn ref_blocks_until_resolved(queues: Queues, op_id: OpId, other: OpId, other_keeps: bool)
    ensures
        !may_terminate(enqueued(queues, op_id, true)),
        !may_terminate(enqueued(enqueued(queues, op_id, true), other, other_keeps)),
        other != op_id || !other_keeps ==> !may_terminate(
            resolved(enqueued(queues, op_id, true), other, other_keeps),
        ),
        resolved(enqueued(queues, op_id, true), op_id, true) == queues,
{
    let after = enqueued(queues, op_id, true);
    assert(after.kept.count(op_id) > 0);
    assert(enqueued(after, other, other_keeps).kept.count(op_id) > 0);
    if other != op_id || !other_keeps {
        assert(resolved(after, other, other_keeps).kept.count(op_id) > 0);
    }
    assert(after.kept.remove(op_id) =~= queues.kept);
}

/// A result that is ready for delivery.
pub struct Completion {
    pub op_id: OpId,
    pub bytes: Box<[u8]>,
    /// Whether the operation was one that kept the event loop alive.
    pub kept_alive: bool,
}

/// Makes the completion of a result that a poll handed out: the id and the
/// bytes as they came, and whether the collection polled is the one that
/// keeps the event loop alive.
pub fn completion(ready: (OpId, Box<[u8]>), kept_alive: bool) -> (done: Completion)
    ensures
        done.op_id == ready.0,
        done.bytes == ready.1,
        done.kept_alive == kept_alive,
{
    Completion { op_id: ready.0, bytes: ready.1, kept_alive }
}

/// The ids among `done` that came out of the queue that `kept_alive` names.
pub open spec fn completed_ids(done: Seq<Completion>, kept_alive: bool) -> Multiset<OpId>
    decreases done.len(),
{
    if done.len() == 0 {
        Multiset::empty()
    } else if done.last().kept_alive == kept_alive {
        completed_ids(done.drop_last(), kept_alive).insert(done.last().op_id)
    } else {
        completed_ids(done.drop_last(), kept_alive)
    }
}

/// The results of the keeping queue stand before those of the other queue.
pub open spec fn kept_first(done: Seq<Completion>) -> bool {
    forall|i: int, j: int|
        0 <= i < j < done.len() && (#[trigger] done[j]).kept_alive
            ==> (#[trigger] done[i]).kept_alive
}

/// One invocation of the receive callback: the operation's id, and its bytes
/// unless there are none.
#[derive(Debug, PartialEq, Eq)]
pub struct RecvCall {
    pub callback: Handle,
    pub op_id: OpId,
    pub buf: Option<Uint8Array>,
}

/// The state of the scheduler: both collections, the flag that tells that
/// something was enqueued since the last poll, and the two callbacks.
pub struct Scheduler {
    pub pending_ops: PendingOps,
    pub pending_unref_ops: PendingOps,
    pub have_unpolled_ops: bool,
    pub js_recv_cb: Option<Handle>,
    pub js_macrotask_cb: Option<Handle>,
}

impl View for Scheduler {
    type V = Queues;

    open spec fn view(&self) -> Queues {
        Queues { kept: pending_ids(self.pending_ops), unref: pending_ids(self.pending_unref_ops) }
    }
}

impl Scheduler {
    /// A scheduler with nothing in flight and no callback.
    pub fn new() -> (scheduler: Self)
        ensures
            scheduler@.kept == Multiset::<OpId>::empty(),
            scheduler@.unref == Multiset::<OpId>::empty(),
            !scheduler.have_unpolled_ops,
            scheduler.js_recv_cb is None,
            scheduler.js_macrotask_cb is None,
    {
        Scheduler {
            pending_ops: PendingOps::new(),
            pending_unref_ops: PendingOps::new(),
            have_unpolled_ops: false,
            js_recv_cb: None,
            js_macrotask_cb: None,
        }
    }

    /// Puts the future of operation `op_id` into the collection that
    /// `keep_alive` names and notes that there is something to poll.
    pub fn enqueue<Fut: Future<Output = Box<[u8]>> + 'static>(
        &mut self,
        op_id: OpId,
        future: Fut,
        keep_alive: bool,
    )
        ensures
            final(self)@ == enqueued(old(self)@, op_id, keep_alive),
            final(self).have_unpolled_ops,
            final(self).js_recv_cb == old(self).js_recv_cb,
            final(self).js_macrotask_cb == old(self).js_macrotask_cb,
    {
        if keep_alive {
            self.pending_ops.push(op_id, future);
        } else {
            self.pending_unref_ops.push(op_id, future);
        }
        self.have_unpolled_ops = true;
    }

    /// Whether the event loop may end as far as the scheduler is concerned.
    pub fn is_idle(&self) -> (idle: bool)
        ensures
            idle == may_terminate(self@),
    {
        self.pending_ops.is_empty()
    }

    /// Polls both collections once through and takes out every result that
    /// is ready, those of the keeping collection first.
    pub fn poll_pending_ops(&mut self, cx: &mut Context<'_>) -> (done: Vec<Completion>)
        ensures
            kept_first(done@),
            old(self)@.kept == final(self)@.kept.add(completed_ids(done@, true)),
            old(self)@.unref == final(self)@.unref.add(completed_ids(done@, false)),
            !final(self).have_unpolled_ops,
            final(self).js_recv_cb == old(self).js_recv_cb,
            final(self).js_macrotask_cb == old(self).js_macrotask_cb,
    {
        self.have_unpolled_ops = false;
        let mut done: Vec<Completion> = Vec::new();
        assert(pending_ids(self.pending_ops).add(completed_ids(done@, true)) =~= pending_ids(
            self.pending_ops,
        ));
        loop
            invariant
                old(self)@.kept == pending_ids(self.pending_ops).add(completed_ids(done@, true)),
                completed_ids(done@, false) == Multiset::<OpId>::empty(),
                forall|i: int| 0 <= i < done@.len() ==> (#[trigger] done@[i]).kept_alive,
                self.pending_unref_ops == old(self).pending_unref_ops,
                !self.have_unpolled_ops,
                self.js_recv_cb == old(self).js_recv_cb,
                self.js_macrotask_cb == old(self).js_macrotask_cb,
            decreases pending_ids(self.pending_ops).len(),
        {
            let ghost before = pending_ids(self.pending_ops);
            let ghost taken = done@;
            match self.pending_ops.poll_next(cx) {
                Some(ready) => {
                    let ghost op_id = ready.0;
                    done.push(completion(ready, true));
                    proof {
                        assert(done@.drop_last() =~= taken);
                        assert(before.remove(op_id).add(completed_ids(taken, true).insert(op_id))
                            =~= before.add(completed_ids(taken, true)));
                        assert(before.remove(op_id).len() < before.len());
                    }
                },
                None => {
                    break ;
                },
            }
        }
        assert(pending_ids(self.pending_unref_ops).add(completed_ids(done@, false))
            =~= pending_ids(self.pending_unref_ops));
        let ghost kept_count = done@.len();
        loop
            invariant
                kept_count <= done@.len(),
                forall|i: int|
                    0 <= i < done@.len() ==> ((#[trigger] done@[i]).kept_alive <==> i
                        < kept_count),
                old(self)@.kept == pending_ids(self.pending_ops).add(completed_ids(done@, true)),
                old(self)@.unref == pending_ids(self.pending_unref_ops).add(
                    completed_ids(done@, false),
                ),
                !self.have_unpolled_ops,
                self.js_recv_cb == old(self).js_recv_cb,
                self.js_macrotask_cb == old(self).js_macrotask_cb,
            decreases pending_ids(self.pending_unref_ops).len(),
        {
            let ghost before = pending_ids(self.pending_unref_ops);
            let ghost taken = done@;
            match self.pending_unref_ops.poll_next(cx) {
                Some(ready) => {
                    let ghost op_id = ready.0;
                    done.push(completion(ready, false));
                    proof {
                        assert(done@.drop_last() =~= taken);
                        assert(before.remove(op_id).add(completed_ids(taken, false).insert(op_id))
                            =~= before.add(completed_ids(taken, false)));
                        assert(before.remove(op_id).len() < before.len());
                    }
                },
                None => {
                    break ;
                },
            }
        }
        done
    }

    /// Prepares the delivery of one result: the receive callback is to be
    /// invoked with the operation's id and, unless they are empty, its bytes.
    /// A result without a registered receive callback is not accepted.
    pub fn async_op_response(&self, completion: Completion) -> (call: RecvCall)
        requires
            self.js_recv_cb is Some,
        ensures
            call.callback == self.js_recv_cb->Some_0,
            call.op_id == completion.op_id,
            completion.bytes@.len() == 0 <==> call.buf is None,
            call.buf matches Some(array) ==> array@ == completion.bytes@,
    {
        let callback = match self.js_recv_cb {
            Some(callback) => callback,
            None => 0,
        };
        RecvCall { callback, op_id: completion.op_id, buf: to_engine_buffer(completion.bytes) }
    }
}

/// What a registration call with `args` does to a callback slot, and what it
/// returns: the first argument must be a function, and the slot must be free.
pub open spec fn registration(slot: Option<Handle>, kind: CallbackKind, args: Seq<ScriptValue>) -> (
    Option<Handle>,
    Result<(), BindingError>,
) {
    match argument(args, 0) {
        ScriptValue::Function(callback) => match slot {
            None => (Some(callback), Ok(())),
            Some(_) => (slot, Err(BindingError::AlreadyRegistered(kind))),
        },
        _ => (slot, Err(BindingError::NotAFunction)),
    }
}

/// A callback that was registered stays: every later registration fails, with
/// `AlreadyRegistered` when it offers a function, and leaves the slot alone.
pub proof fn second_registration_fails(
    kind: CallbackKind,
    first: Seq<ScriptValue>,
    second: Seq<ScriptValue>,
)
    requires
        argument(first, 0) is Function,
    ensures
        registration(None, kind, first).1 is Ok,
        registration(None, kind, first).0 == Some(argument(first, 0)->Function_0),
        registration(registration(None, kind, first).0, kind, second).1 is Err,
        registration(registration(None, kind, first).0, kind, second).0 == registration(
            None,
            kind,
            first,
        ).0,
        argument(second, 0) is Function ==> registration(
            registration(None, kind, first).0,
            kind,
            second,
        ).1 == Err::<(), BindingError>(BindingError::AlreadyRegistered(kind)),
{
}

fn register_callback(
    slot: &mut Option<Handle>,
    kind: CallbackKind,
    args: &Vec<ScriptValue>,
) -> (done: Result<(), BindingError>)
    ensures
        (*final(slot), done) == registration(*old(slot), kind, args@),
{
    match get_argument(args, 0) {
        Some(ScriptValue::Function(callback)) => {
            if slot.is_some() {
                return Err(BindingError::AlreadyRegistered(kind));
            }
            *slot = Some(*callback);
            Ok(())
        },
        _ => Err(BindingError::NotAFunction),
    }
}

/// Registers the callback that receives the results of asynchronous
/// operations. There is one for the lifetime of the runtime instance.
pub fn recv(scheduler: &mut Scheduler, args: &Vec<ScriptValue>) -> (done: Result<(), BindingError>)
    ensures
        (final(scheduler).js_recv_cb, done) == registration(
            old(scheduler).js_recv_cb,
            CallbackKind::Receive,
            args@,
        ),
        final(scheduler).js_macrotask_cb == old(scheduler).js_macrotask_cb,
        final(scheduler).pending_ops == old(scheduler).pending_ops,
        final(scheduler).pending_unref_ops == old(scheduler).pending_unref_ops,
        final(scheduler).have_unpolled_ops == old(scheduler).have_unpolled_ops,
{
    register_callback(&mut scheduler.js_recv_cb, CallbackKind::Receive, args)
}

/// Registers the callback that runs macrotasks. There is one for the lifetime
/// of the runtime instance.
pub fn set_macrotask_callback(scheduler: &mut Scheduler, args: &Vec<ScriptValue>) -> (done: Result<
    (),
    BindingError,
>)
    ensures
        (final(scheduler).js_macrotask_cb, done) == registration(
            old(scheduler).js_macrotask_cb,
            CallbackKind::Macrotask,
            args@,
        ),
        final(scheduler).js_recv_cb == old(scheduler).js_recv_cb,
        final(scheduler).pending_ops == old(scheduler).pending_ops,
        final(scheduler).pending_unref_ops == old(scheduler).pending_unref_ops,
        final(scheduler).have_unpolled_ops == old(scheduler).have_unpolled_ops,
{
    register_callback(&mut scheduler.js_macrotask_cb, CallbackKind::Macrotask, args)
}

} // verus!
