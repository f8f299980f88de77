//! The state of one runtime instance, and the dispatch of an operation from
//! script code through the op table into the scheduler.

use vstd::prelude::*;
use core::future::Future;
use crate::buffer::{to_engine_buffer, Uint8Array, ZeroCopyBuf};
use crate::error::{decimal, message_text, BindingError};
use crate::modules::{DynImportRequestView, DynamicImports, ModuleInfoView, Modules};
use crate::ops::{
    all_buffers, buffers_of, collect_buffers, first_non_buffer, op_id_of, parse_op_id, routed, Op,
    OpId, OpTable,
};
use crate::rejections::RejectionTracker;
use crate::scheduler::{enqueued, Scheduler};
use crate::shared::SharedChannel;
use crate::value::{Handle, ScriptValue};

verus! {

/// Everything that one runtime instance owns, from its construction to its
/// disposal. `S` is the state that handlers work on, `H` the type of the
/// handlers, `L` the loader that the host supplies.
pub struct RuntimeState<S, H, L> {
    pub op_state: S,
    pub op_table: OpTable<H>,
    pub scheduler: Scheduler,
    pub shared: SharedChannel,
    pub rejections: RejectionTracker,
    pub modules: Modules,
    pub dyn_imports: DynamicImports,
    pub loader: L,
}

impl<S, H, L> RuntimeState<S, H, L> {
    /// The state of a fresh instance: no handler, nothing in flight, no
    /// callback, an empty shared channel, no pending rejection, no module.
    pub fn new(op_state: S, loader: L) -> (state: Self)
        ensures
            state.op_state == op_state,
            state.loader == loader,
            state.op_table@ == Map::<OpId, H>::empty(),
            state.scheduler@.kept.len() == 0,
            state.scheduler@.unref.len() == 0,
            !state.scheduler.have_unpolled_ops,
            state.scheduler.js_recv_cb is None,
            state.scheduler.js_macrotask_cb is None,
            state.shared.pending_size == 0,
            state.shared.buffer is None,
            state.rejections@ == Map::<Handle, Handle>::empty(),
            state.modules@ == Seq::<ModuleInfoView>::empty(),
            state.dyn_imports.wf(),
            state.dyn_imports.resolvers() == Map::<u64, Handle>::empty(),
            state.dyn_imports.requests() == Seq::<DynImportRequestView>::empty(),
    {
        RuntimeState {
            op_state,
            op_table: OpTable::new(),
            scheduler: Scheduler::new(),
            shared: SharedChannel::new(),
            rejections: RejectionTracker::new(),
            modules: Modules::new(),
            dyn_imports: DynamicImports::new(),
            loader,
        }
    }
}

/// What a dispatch returns to script code, and what it does to the scheduler,
/// once the handler's outcome `op` is known.
pub open spec fn delivered<Fut>(
    before: Scheduler,
    op_id: OpId,
    op: Op<Fut>,
    after: Scheduler,
    returned: Result<Option<Uint8Array>, BindingError>,
) -> bool {
    match op {
        Op::Sync(buf) => {
            &&& after == before
            &&& returned is Ok
            &&& buf@.len() == 0 <==> returned->Ok_0 is None
            &&& returned->Ok_0 matches Some(array) ==> array@ == buf@
        },
        Op::Async(_) => {
            &&& returned == Ok::<Option<Uint8Array>, BindingError>(None)
            &&& after@ == enqueued(before@, op_id, true)
            &&& after.have_unpolled_ops
            &&& after.js_recv_cb == before.js_recv_cb
            &&& after.js_macrotask_cb == before.js_macrotask_cb
        },
        Op::AsyncUnref(_) => {
            &&& returned == Ok::<Option<Uint8Array>, BindingError>(None)
            &&& after@ == enqueued(before@, op_id, false)
            &&& after.have_unpolled_ops
            &&& after.js_recv_cb == before.js_recv_cb
            &&& after.js_macrotask_cb == before.js_macrotask_cb
        },
        Op::NotFound => {
            &&& after == before
            &&& returned == Err::<Option<Uint8Array>, BindingError>(
                BindingError::UnknownOpId { op_id },
            )
        },
    }
}

/// The bytes of a synchronous result reach script code exactly as the handler
/// returned them, and the scheduler is not involved.
pub proof fn sync_bytes_reach_script<Fut>(
    before: Scheduler,
    op_id: OpId,
    buf: Box<[u8]>,
    after: Scheduler,
    returned: Result<Option<Uint8Array>, BindingError>,
)
    requires
        buf@.len() > 0,
        delivered(before, op_id, Op::<Fut>::Sync(buf), after, returned),
    ensures
        returned matches Ok(Some(array)) && array@ == buf@,
        after == before,
{
}

/// A synchronous result without bytes is no value for script code: not an
/// empty buffer, and not an error.
pub proof fn empty_sync_result_is_no_value<Fut>(
    before: Scheduler,
    op_id: OpId,
    buf: Box<[u8]>,
    after: Scheduler,
    returned: Result<Option<Uint8Array>, BindingError>,
)
    requires
        buf@.len() == 0,
        delivered(before, op_id, Op::<Fut>::Sync(buf), after, returned),
    ensures
        returned == Ok::<Option<Uint8Array>, BindingError>(None),
        after == before,
{
}

/// A call for an id without a handler is routed to `NotFound` and comes back
/// as the error that names the id, in its value and in its message.
pub proof fn unknown_id_is_named<'a, S, H, Fut>(
    table: Map<OpId, H>,
    op_id: OpId,
    state: &S,
    bufs: Vec<ZeroCopyBuf<'a>>,
    op: Op<Fut>,
    before: Scheduler,
    after: Scheduler,
    returned: Result<Option<Uint8Array>, BindingError>,
) where H: Fn(&S, Vec<ZeroCopyBuf<'a>>) -> Op<Fut>
    requires
        !table.contains_key(op_id),
        routed(table, op_id, state, bufs, op),
        delivered(before, op_id, op, after, returned),
    ensures
        op is NotFound,
        returned == Err::<Option<Uint8Array>, BindingError>(BindingError::UnknownOpId { op_id }),
        message_text(returned->Err_0) == "Unknown op id: "@ + decimal(op_id as nat),
        after == before,
{
}

/// Finishes a dispatch with the outcome that the handler returned: bytes go
/// back at once, unless there are none; a pending computation goes to the
/// scheduler; an unknown id is an error that names the id.
pub fn complete_send<Fut: Future<Output = Box<[u8]>> + 'static>(
    scheduler: &mut Scheduler,
    op_id: OpId,
    op: Op<Fut>,
) -> (returned: Result<Option<Uint8Array>, BindingError>)
    ensures
        delivered(*old(scheduler), op_id, op, *final(scheduler), returned),
{
    match op {
        Op::Sync(buf) => Ok(to_engine_buffer(buf)),
        Op::Async(future) => {
            scheduler.enqueue(op_id, future, true);
            Ok(None)
        },
        Op::AsyncUnref(future) => {
            scheduler.enqueue(op_id, future, false);
            Ok(None)
        },
        Op::NotFound => Err(BindingError::UnknownOpId { op_id }),
    }
}

/// The handler that a dispatch with `args` reaches accepts the call. Nothing
/// is asked where no handler runs: the id is malformed or unregistered, or an
/// argument after it is no byte view.
pub open spec fn handler_accepts<'a, S, H, L, Fut>(
    state: RuntimeState<S, H, L>,
    args: Seq<ScriptValue<'a>>,
) -> bool where H: Fn(&S, Vec<ZeroCopyBuf<'a>>) -> Op<Fut> {
    op_id_of(args) matches Ok(id) ==> (all_buffers(args) && state.op_table@.contains_key(id)
        ==> forall|bufs: Vec<ZeroCopyBuf<'a>>| #[trigger]
        bufs@ == buffers_of(args) ==> call_requires(
            state.op_table@[id],
            (&state.op_state, bufs),
        ))
}

/// Everything but the scheduler is as it was.
pub open spec fn only_scheduler_changed<S, H, L>(
    before: RuntimeState<S, H, L>,
    after: RuntimeState<S, H, L>,
) -> bool {
    &&& after.op_state == before.op_state
    &&& after.op_table == before.op_table
    &&& after.shared == before.shared
    &&& after.rejections == before.rejections
    &&& after.modules == before.modules
    &&& after.dyn_imports == before.dyn_imports
    &&& after.loader == before.loader
}

/// What a dispatch with `args` returns and leaves behind.
pub open spec fn sent<'a, S, H, L, Fut>(
    before: RuntimeState<S, H, L>,
    args: Seq<ScriptValue<'a>>,
    after: RuntimeState<S, H, L>,
    returned: Result<Option<Uint8Array>, BindingError>,
) -> bool where H: Fn(&S, Vec<ZeroCopyBuf<'a>>) -> Op<Fut> {
    match op_id_of(args) {
        Err(fault) => {
            &&& after == before
            &&& returned == Err::<Option<Uint8Array>, BindingError>(
                BindingError::InvalidOpId(fault),
            )
        },
        Ok(op_id) => if all_buffers(args) {
            &&& only_scheduler_changed(before, after)
            &&& exists|bufs: Vec<ZeroCopyBuf<'a>>, op: Op<Fut>|
                {
                    &&& bufs@ == buffers_of(args)
                    &&& #[trigger] routed(before.op_table@, op_id, &before.op_state, bufs, op)
                    &&& delivered(
                        before.scheduler,
                        op_id,
                        op,
                        after.scheduler,
                        returned,
                    )
                }
        } else {
            &&& after == before
            &&& returned matches Err(BindingError::InvalidArgumentAt { position })
            &&& first_non_buffer(args, position as int)
        },
    }
}

/// Dispatches one operation for script code. The first argument is the
/// operation id, every further one a byte view. No unconsumed data may wait in
/// the shared channel across the call.
pub fn send<'a, S, H, L, Fut>(
    state: &mut RuntimeState<S, H, L>,
    args: &Vec<ScriptValue<'a>>,
) -> (returned: Result<Option<Uint8Array>, BindingError>) where
    H: Fn(&S, Vec<ZeroCopyBuf<'a>>) -> Op<Fut>,
    Fut: Future<Output = Box<[u8]>> + 'static,

    requires
        old(state).shared.pending_size == 0,
        handler_accepts::<S, H, L, Fut>(*old(state), args@),
    ensures
        sent::<S, H, L, Fut>(*old(state), args@, *final(state), returned),
        final(state).shared.pending_size == 0,
        op_id_of(args@) matches Ok(op_id) ==> (all_buffers(args@)
            && !old(state).op_table@.contains_key(op_id) ==> *final(state) == *old(state)
            && returned == Err::<Option<Uint8Array>, BindingError>(
            BindingError::UnknownOpId { op_id },
        )),
{
    let op_id = match parse_op_id(args) {
        Ok(op_id) => op_id,
        Err(fault) => {
            return Err(BindingError::InvalidOpId(fault));
        },
    };
    let bufs = match collect_buffers(args) {
        Ok(bufs) => bufs,
        Err(error) => {
            return Err(error);
        },
    };
    let ghost handed = bufs;
    let op = state.op_table.route_op(op_id, &state.op_state, bufs);
    let ghost outcome = op;
    let returned = complete_send(&mut state.scheduler, op_id, op);
    proof {
        assert(delivered(old(state).scheduler, op_id, outcome, state.scheduler, returned));
        assert(routed(old(state).op_table@, op_id, &old(state).op_state, handed, outcome));
    }
    returned
}

} // verus!
