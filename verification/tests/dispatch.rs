use futures::future::{FutureExt, LocalBoxFuture};
use futures::task::noop_waker;
use script_bridge::buffer::ZeroCopyBuf;
use script_bridge::error::{BindingError, OpIdFault};
use script_bridge::ops::{collect_buffers, parse_op_id, Op, OpTable, INVALID_OP_ID};
use script_bridge::runtime::{complete_send, send, RuntimeState};
use script_bridge::scheduler::Scheduler;
use script_bridge::value::ScriptValue;
use std::cell::Cell;
use std::task::Context;

type OpFuture = LocalBoxFuture<'static, Box<[u8]>>;
type Handler = Box<dyn for<'a> Fn(&Cell<u32>, Vec<ZeroCopyBuf<'a>>) -> Op<OpFuture>>;
type State = RuntimeState<Cell<u32>, Handler, ()>;

fn boxed(bytes: &[u8]) -> Box<[u8]> {
    bytes.to_vec().into_boxed_slice()
}

fn echo() -> Handler {
    Box::new(|calls, bufs| {
        calls.set(calls.get() + 1);
        let mut out = Vec::new();
        for buf in bufs.iter() {
            out.extend_from_slice(buf.as_slice());
        }
        Op::Sync(out.into_boxed_slice())
    })
}

fn later(bytes: &'static [u8], keep_alive: bool) -> Handler {
    Box::new(move |calls, _bufs| {
        calls.set(calls.get() + 1);
        let future = futures::future::ready(boxed(bytes)).boxed_local();
        if keep_alive {
            Op::Async(future)
        } else {
            Op::AsyncUnref(future)
        }
    })
}

fn state_with(handlers: Vec<(usize, Handler)>) -> State {
    let mut state: State = RuntimeState::new(Cell::new(0), ());
    for (id, handler) in handlers {
        assert!(state.op_table.register(id, handler).unwrap().is_none());
    }
    state
}

#[test]
fn op_id_is_the_first_argument() {
    assert_eq!(parse_op_id(&vec![ScriptValue::Integer(0)]), Ok(0));
    assert_eq!(parse_op_id(&vec![ScriptValue::Integer(17), ScriptValue::Null]), Ok(17));
    assert_eq!(
        parse_op_id(&vec![ScriptValue::Integer(i64::MAX)]),
        usize::try_from(i64::MAX).map_err(|_| OpIdFault::OutOfRange)
    );
}

#[test]
fn op_id_must_be_a_non_negative_integer() {
    assert_eq!(parse_op_id(&Vec::new()), Err(OpIdFault::NotAnInteger));
    assert_eq!(parse_op_id(&vec![ScriptValue::Undefined]), Err(OpIdFault::NotAnInteger));
    assert_eq!(
        parse_op_id(&vec![ScriptValue::Text("1".to_string())]),
        Err(OpIdFault::NotAnInteger)
    );
    assert_eq!(parse_op_id(&vec![ScriptValue::Integer(-1)]), Err(OpIdFault::OutOfRange));
    assert_eq!(parse_op_id(&vec![ScriptValue::Integer(i64::MIN)]), Err(OpIdFault::OutOfRange));
}

#[test]
fn buffers_follow_the_id() {
    let store = [1u8, 2, 3, 4];
    let args = vec![
        ScriptValue::Integer(1),
        ScriptValue::BufferView(ZeroCopyBuf::new(&store, 0, 2).unwrap()),
        ScriptValue::BufferView(ZeroCopyBuf::new(&store, 3, 1).unwrap()),
    ];
    let bufs = collect_buffers(&args).unwrap();
    assert_eq!(bufs.len(), 2);
    assert_eq!(bufs[0].as_slice(), &[1u8, 2]);
    assert_eq!(bufs[1].as_slice(), &[4u8]);
    assert_eq!(collect_buffers(&Vec::new()).unwrap().len(), 0);
    assert_eq!(collect_buffers(&vec![ScriptValue::Null]).unwrap().len(), 0);
}

#[test]
fn first_argument_that_is_no_buffer_is_named() {
    let store = [1u8, 2, 3, 4];
    let args = vec![
        ScriptValue::Integer(1),
        ScriptValue::BufferView(ZeroCopyBuf::new(&store, 0, 2).unwrap()),
        ScriptValue::Text("x".to_string()),
        ScriptValue::Null,
    ];
    assert_eq!(
        collect_buffers(&args).unwrap_err(),
        BindingError::InvalidArgumentAt { position: 2 }
    );
}

#[test]
fn reserved_id_is_never_registered() {
    let mut table: OpTable<Handler> = OpTable::new();
    assert_eq!(INVALID_OP_ID, 0);
    assert_eq!(
        table.register(INVALID_OP_ID, echo()).err(),
        Some(BindingError::InvalidOpId(OpIdFault::Reserved))
    );
    assert!(!table.contains(INVALID_OP_ID));
    let calls = Cell::new(0);
    assert!(matches!(table.route_op(INVALID_OP_ID, &calls, Vec::new()), Op::NotFound));
    assert_eq!(calls.get(), 0);
}

#[test]
fn registration_returns_the_handler_that_was_there() {
    let mut table: OpTable<Handler> = OpTable::new();
    assert!(table.register(3, echo()).unwrap().is_none());
    assert!(table.contains(3));
    assert!(!table.contains(4));
    let previous = table.register(3, later(b"x", true)).unwrap().unwrap();
    let calls = Cell::new(0);
    assert!(matches!(previous(&calls, Vec::new()), Op::Sync(_)));
    assert!(matches!(table.route_op(3, &calls, Vec::new()), Op::Async(_)));
}

#[test]
fn route_reaches_the_registered_handler() {
    let mut table: OpTable<Handler> = OpTable::new();
    table.register(5, echo()).unwrap();
    let calls = Cell::new(0);
    let store = [9u8, 8, 7];
    let bufs = vec![ZeroCopyBuf::new(&store, 1, 2).unwrap()];
    match table.route_op(5, &calls, bufs) {
        Op::Sync(bytes) => assert_eq!(&*bytes, &[8u8, 7]),
        _ => panic!("expected a synchronous result"),
    }
    assert_eq!(calls.get(), 1);
    assert!(matches!(table.route_op(6, &calls, Vec::new()), Op::NotFound));
    assert_eq!(calls.get(), 1);
}

#[test]
fn unregistered_id_is_an_error_that_names_it() {
    let mut state = state_with(vec![(1, echo())]);
    let error = send(&mut state, &vec![ScriptValue::Integer(42)]).unwrap_err();
    assert_eq!(error, BindingError::UnknownOpId { op_id: 42 });
    assert_eq!(error.message(), "Unknown op id: 42");
    assert_eq!(state.op_state.get(), 0);
    assert!(state.scheduler.is_idle());
}

#[test]
fn synchronous_bytes_come_back_unchanged() {
    let mut state = state_with(vec![(1, echo())]);
    let store = [0u8, 1, 2, 255, 254];
    let args = vec![
        ScriptValue::Integer(1),
        ScriptValue::BufferView(ZeroCopyBuf::new(&store, 1, 4).unwrap()),
        ScriptValue::BufferView(ZeroCopyBuf::new(&store, 0, 1).unwrap()),
    ];
    let array = send(&mut state, &args).unwrap().unwrap();
    assert_eq!(array.as_slice(), &[1u8, 2, 255, 254, 0]);
    assert_eq!(state.op_state.get(), 1);
    assert!(!state.scheduler.have_unpolled_ops);
}

#[test]
fn empty_synchronous_result_is_no_value() {
    let mut state = state_with(vec![(1, echo())]);
    assert_eq!(send(&mut state, &vec![ScriptValue::Integer(1)]), Ok(None));
    assert_eq!(state.op_state.get(), 1);
}

#[test]
fn malformed_calls_do_not_reach_a_handler() {
    let mut state = state_with(vec![(1, echo())]);
    assert_eq!(
        send(&mut state, &Vec::new()),
        Err(BindingError::InvalidOpId(OpIdFault::NotAnInteger))
    );
    assert_eq!(
        send(&mut state, &vec![ScriptValue::Integer(-3)]),
        Err(BindingError::InvalidOpId(OpIdFault::OutOfRange))
    );
    assert_eq!(
        send(&mut state, &vec![ScriptValue::Integer(1), ScriptValue::Integer(2)]),
        Err(BindingError::InvalidArgumentAt { position: 1 })
    );
    assert_eq!(
        send(&mut state, &vec![ScriptValue::Boolean(true), ScriptValue::Integer(2)]),
        Err(BindingError::InvalidOpId(OpIdFault::NotAnInteger))
    );
    assert_eq!(state.op_state.get(), 0);
}

#[test]
fn asynchronous_result_is_delivered_later() {
    let mut state = state_with(vec![(2, later(b"late", true))]);
    assert_eq!(send(&mut state, &vec![ScriptValue::Integer(2)]), Ok(None));
    assert!(state.scheduler.have_unpolled_ops);
    assert!(!state.scheduler.is_idle());
    let waker = noop_waker();
    let mut cx = Context::from_waker(&waker);
    let done = state.scheduler.poll_pending_ops(&mut cx);
    assert_eq!(done.len(), 1);
    assert_eq!(done[0].op_id, 2);
    assert_eq!(&*done[0].bytes, b"late");
    assert!(done[0].kept_alive);
    assert!(state.scheduler.is_idle());
    assert!(!state.scheduler.have_unpolled_ops);
}

#[test]
fn unref_operation_leaves_the_loop_free_to_end() {
    let mut state = state_with(vec![(2, later(b"zz", false))]);
    assert_eq!(send(&mut state, &vec![ScriptValue::Integer(2)]), Ok(None));
    assert!(state.scheduler.have_unpolled_ops);
    assert!(state.scheduler.is_idle());
    let waker = noop_waker();
    let mut cx = Context::from_waker(&waker);
    let done = state.scheduler.poll_pending_ops(&mut cx);
    assert_eq!(done.len(), 1);
    assert_eq!(done[0].op_id, 2);
    assert!(!done[0].kept_alive);
}

#[test]
fn outcome_decides_what_a_dispatch_returns() {
    let mut scheduler = Scheduler::new();
    let sync: Op<OpFuture> = Op::Sync(boxed(&[5, 6]));
    assert_eq!(complete_send(&mut scheduler, 9, sync).unwrap().unwrap().as_slice(), &[5u8, 6]);
    let empty: Op<OpFuture> = Op::Sync(boxed(&[]));
    assert_eq!(complete_send(&mut scheduler, 9, empty), Ok(None));
    let missing: Op<OpFuture> = Op::NotFound;
    assert_eq!(
        complete_send(&mut scheduler, 9, missing),
        Err(BindingError::UnknownOpId { op_id: 9 })
    );
    assert!(scheduler.is_idle());
    assert!(!scheduler.have_unpolled_ops);
    let pending: Op<OpFuture> = Op::Async(futures::future::pending().boxed_local());
    assert_eq!(complete_send(&mut scheduler, 9, pending), Ok(None));
    assert!(!scheduler.is_idle());
    assert!(scheduler.have_unpolled_ops);
}
