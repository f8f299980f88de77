//! Op registry and dispatcher: a table from operation ids to handlers, and
//! the routing of one call to the handler registered under its id.

use vstd::prelude::*;
use std::collections::HashMap;
use crate::buffer::ZeroCopyBuf;
use crate::error::{BindingError, OpIdFault};
use crate::value::{argument, get_argument, ScriptValue};

verus! {

broadcast use vstd::std_specs::hash::group_hash_axioms;

/// Identifies a registered operation.
pub type OpId = usize;

/// The id under which no operation is ever registered.
pub const INVALID_OP_ID: OpId = 0;

/// The outcome of dispatching one operation. `Fut` is the type of the pending
/// computations that asynchronous handlers return.
pub enum Op<Fut> {
    /// The handler ran to completion; the bytes may be empty.
    Sync(Box<[u8]>),
    /// The result arrives later, and the event loop stays alive for it.
    Async(Fut),
    /// The result arrives later, and the event loop does not wait for it.
    AsyncUnref(Fut),
    /// No handler is registered under the id.
    NotFound,
}

/// The handlers of a runtime instance, each under its operation id.
pub struct OpTable<H> {
    handlers: HashMap<OpId, H>,
}

impl<H> OpTable<H> {
    /// The registered handlers by id. The reserved id has none.
    pub closed spec fn view(&self) -> Map<OpId, H> {
        self.handlers@.remove(INVALID_OP_ID)
    }

    /// A table without handlers.
    pub fn new() -> (table: Self)
        ensures
            table@ == Map::<OpId, H>::empty(),
    {
        let table = OpTable { handlers: HashMap::new() };
        assert(table@ =~= Map::<OpId, H>::empty());
        table
    }

    /// Whether a handler is registered under `id`.
    pub fn contains(&self, id: OpId) -> (found: bool)
        ensures
            found == self@.contains_key(id),
            id == INVALID_OP_ID ==> !found,
    {
        id != INVALID_OP_ID && self.handlers.contains_key(&id)
    }

    /// Registers `handler` under `id` and returns the handler that `id` had
    /// before, if any. The reserved id is refused and the table left as it is.
    pub fn register(&mut self, id: OpId, handler: H) -> (previous: Result<Option<H>, BindingError>)
        ensures
            id == INVALID_OP_ID ==> previous == Err::<Option<H>, BindingError>(
                BindingError::InvalidOpId(OpIdFault::Reserved),
            ) && final(self)@ == old(self)@,
            id != INVALID_OP_ID ==> previous is Ok && final(self)@ == old(self)@.insert(id, handler)
                && previous->Ok_0 == (if old(self)@.contains_key(id) {
                Some(old(self)@[id])
            } else {
                None
            }),
    {
        if id == INVALID_OP_ID {
            return Err(BindingError::InvalidOpId(OpIdFault::Reserved));
        }
        let previous = self.handlers.insert(id, handler);
        assert(self@ =~= old(self)@.insert(id, handler));
        Ok(previous)
    }

    /// Routes one call: invokes the handler registered under `id` with the
    /// handler state and the buffers, or reports that there is none.
    pub fn route_op<'a, S, Fut>(&self, id: OpId, state: &S, bufs: Vec<ZeroCopyBuf<'a>>) -> (op: Op<
        Fut,
    >) where H: Fn(&S, Vec<ZeroCopyBuf<'a>>) -> Op<Fut>
        requires
            self@.contains_key(id) ==> call_requires(self@[id], (state, bufs)),
        ensures
            routed(self@, id, state, bufs, op),
            id == INVALID_OP_ID ==> op is NotFound,
    {
        if id == INVALID_OP_ID {
            return Op::NotFound;
        }
        match self.handlers.get(&id) {
            Some(handler) => handler(state, bufs),
            None => Op::NotFound,
        }
    }
}

/// `op` is an outcome of routing a call for `id` through `table`: what the
/// registered handler may return for these arguments, or `NotFound` when no
/// handler is registered.
pub open spec fn routed<'a, S, H, Fut>(
    table: Map<OpId, H>,
    id: OpId,
    state: &S,
    bufs: Vec<ZeroCopyBuf<'a>>,
    op: Op<Fut>,
) -> bool where H: Fn(&S, Vec<ZeroCopyBuf<'a>>) -> Op<Fut> {
    if table.contains_key(id) {
        call_ensures(table[id], (state, bufs), op)
    } else {
        op is NotFound
    }
}

/// The operation id that the first argument of a dispatch names.
pub open spec fn op_id_of(args: Seq<ScriptValue>) -> Result<OpId, OpIdFault> {
    match argument(args, 0) {
        ScriptValue::Integer(value) => if 0 <= value <= usize::MAX {
            Ok(value as usize)
        } else {
            Err(OpIdFault::OutOfRange)
        },
        _ => Err(OpIdFault::NotAnInteger),
    }
}

/// Reads the operation id from the first argument of a dispatch.
pub fn parse_op_id(args: &Vec<ScriptValue>) -> (id: Result<OpId, OpIdFault>)
    ensures
        id == op_id_of(args@),
{
    match get_argument(args, 0) {
        Some(ScriptValue::Integer(value)) => {
            let value: i64 = *value;
            if value < 0 {
                Err(OpIdFault::OutOfRange)
            } else if value as u64 > usize::MAX as u64 {
                Err(OpIdFault::OutOfRange)
            } else {
                Ok(value as usize)
            }
        },
        _ => Err(OpIdFault::NotAnInteger),
    }
}

/// Every argument after the first is a byte view.
pub open spec fn all_buffers(args: Seq<ScriptValue>) -> bool {
    forall|p: int| 1 <= p < args.len() ==> (#[trigger] args[p]) is BufferView
}

/// `position` is the first place after the id that holds no byte view.
pub open spec fn first_non_buffer(args: Seq<ScriptValue>, position: int) -> bool {
    &&& 1 <= position < args.len()
    &&& !(args[position] is BufferView)
    &&& forall|p: int| 1 <= p < position ==> (#[trigger] args[p]) is BufferView
}

/// The byte views that follow the id, in order.
pub open spec fn buffers_of<'a>(args: Seq<ScriptValue<'a>>) -> Seq<ZeroCopyBuf<'a>> {
    if args.len() == 0 {
        Seq::empty()
    } else {
        Seq::new((args.len() - 1) as nat, |i: int| args[i + 1]->BufferView_0)
    }
}

/// Collects the input buffers of a dispatch, or names the first argument that
/// is no byte view.
pub fn collect_buffers<'a>(args: &Vec<ScriptValue<'a>>) -> (bufs: Result<
    Vec<ZeroCopyBuf<'a>>,
    BindingError,
>)
    ensures
        bufs matches Ok(views) ==> all_buffers(args@) && views@ == buffers_of(args@),
        bufs matches Err(error) ==> error matches BindingError::InvalidArgumentAt { position }
            && first_non_buffer(args@, position as int),
{
    let mut views: Vec<ZeroCopyBuf<'a>> = Vec::new();
    let mut idx: usize = 1;
    while idx < args.len()
        invariant
            1 <= idx,
            views@.len() == idx - 1,
            idx <= args@.len() || idx == 1,
            forall|p: int| 1 <= p < idx && p < args@.len() ==> (#[trigger] args@[p]) is BufferView,
            forall|i: int| 0 <= i < views@.len() ==> views@[i] == args@[i + 1]->BufferView_0,
        decreases args@.len() - idx,
    {
        match &args[idx] {
            ScriptValue::BufferView(view) => {
                views.push(*view);
            },
            _ => {
                return Err(BindingError::InvalidArgumentAt { position: idx });
            },
        }
        idx = idx + 1;
    }
    assert(views@ =~= buffers_of(args@));
    Ok(views)
}

} // verus!
