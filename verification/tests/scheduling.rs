use futures::channel::oneshot;
use futures::future::FutureExt;
use futures::task::noop_waker;
use script_bridge::error::{BindingError, CallbackKind};
use script_bridge::scheduler::{recv, set_macrotask_callback, tag_result, Completion, Scheduler};
use script_bridge::value::ScriptValue;
use std::task::Context;

fn boxed(bytes: &[u8]) -> Box<[u8]> {
    bytes.to_vec().into_boxed_slice()
}

#[test]
fn fresh_scheduler_is_idle() {
    let scheduler = Scheduler::new();
    assert!(scheduler.is_idle());
    assert!(!scheduler.have_unpolled_ops);
    assert_eq!(scheduler.js_recv_cb, None);
    assert_eq!(scheduler.js_macrotask_cb, None);
}

#[test]
fn result_is_tagged_with_its_id() {
    assert_eq!(tag_result(4, boxed(&[1, 2])), (4, boxed(&[1, 2])));
}

#[test]
fn ref_future_blocks_until_it_resolves() {
    let mut scheduler = Scheduler::new();
    let (sender, receiver) = oneshot::channel::<Box<[u8]>>();
    scheduler.enqueue(7, receiver.map(|sent| sent.unwrap()), true);
    assert!(scheduler.have_unpolled_ops);
    assert!(!scheduler.is_idle());
    let waker = noop_waker();
    let mut cx = Context::from_waker(&waker);
    assert_eq!(scheduler.poll_pending_ops(&mut cx).len(), 0);
    assert!(!scheduler.is_idle());
    assert!(!scheduler.have_unpolled_ops);
    sender.send(boxed(&[3])).unwrap();
    let done = scheduler.poll_pending_ops(&mut cx);
    assert_eq!(done.len(), 1);
    assert_eq!(done[0].op_id, 7);
    assert_eq!(&*done[0].bytes, &[3u8]);
    assert!(scheduler.is_idle());
}

#[test]
fn unref_future_never_blocks() {
    let mut scheduler = Scheduler::new();
    scheduler.enqueue(7, futures::future::pending(), false);
    assert!(scheduler.is_idle());
    let waker = noop_waker();
    let mut cx = Context::from_waker(&waker);
    assert_eq!(scheduler.poll_pending_ops(&mut cx).len(), 0);
    assert!(scheduler.is_idle());
    scheduler.enqueue(8, futures::future::pending(), true);
    assert!(!scheduler.is_idle());
}

#[test]
fn results_come_in_the_order_of_readiness() {
    let mut scheduler = Scheduler::new();
    let (first_sender, first) = oneshot::channel::<Box<[u8]>>();
    let (second_sender, second) = oneshot::channel::<Box<[u8]>>();
    scheduler.enqueue(1, first.map(|sent| sent.unwrap()), true);
    scheduler.enqueue(2, second.map(|sent| sent.unwrap()), true);
    let waker = noop_waker();
    let mut cx = Context::from_waker(&waker);
    assert_eq!(scheduler.poll_pending_ops(&mut cx).len(), 0);
    second_sender.send(boxed(b"two")).unwrap();
    let done = scheduler.poll_pending_ops(&mut cx);
    assert_eq!(done.len(), 1);
    assert_eq!(done[0].op_id, 2);
    assert_eq!(&*done[0].bytes, b"two");
    assert!(!scheduler.is_idle());
    first_sender.send(boxed(b"one")).unwrap();
    let done = scheduler.poll_pending_ops(&mut cx);
    assert_eq!(done.len(), 1);
    assert_eq!(done[0].op_id, 1);
    assert!(scheduler.is_idle());
}

#[test]
fn both_collections_are_polled() {
    let mut scheduler = Scheduler::new();
    scheduler.enqueue(1, futures::future::ready(boxed(b"a")), false);
    scheduler.enqueue(2, futures::future::ready(boxed(b"b")), true);
    scheduler.enqueue(2, futures::future::ready(boxed(b"c")), true);
    let waker = noop_waker();
    let mut cx = Context::from_waker(&waker);
    let done = scheduler.poll_pending_ops(&mut cx);
    assert_eq!(done.len(), 3);
    assert!(done[0].kept_alive && done[1].kept_alive && !done[2].kept_alive);
    assert_eq!((done[0].op_id, done[1].op_id, done[2].op_id), (2, 2, 1));
    assert_eq!(&*done[2].bytes, b"a");
    assert!(scheduler.is_idle());
    assert_eq!(scheduler.poll_pending_ops(&mut cx).len(), 0);
}

#[test]
fn receive_callback_is_registered_once() {
    let mut scheduler = Scheduler::new();
    assert_eq!(recv(&mut scheduler, &vec![ScriptValue::Function(11)]), Ok(()));
    assert_eq!(scheduler.js_recv_cb, Some(11));
    assert_eq!(
        recv(&mut scheduler, &vec![ScriptValue::Function(12)]),
        Err(BindingError::AlreadyRegistered(CallbackKind::Receive))
    );
    assert_eq!(scheduler.js_recv_cb, Some(11));
    assert_eq!(scheduler.js_macrotask_cb, None);
}

#[test]
fn receive_callback_must_be_a_function() {
    let mut scheduler = Scheduler::new();
    assert_eq!(recv(&mut scheduler, &Vec::new()), Err(BindingError::NotAFunction));
    assert_eq!(
        recv(&mut scheduler, &vec![ScriptValue::Integer(1)]),
        Err(BindingError::NotAFunction)
    );
    assert_eq!(scheduler.js_recv_cb, None);
    assert_eq!(recv(&mut scheduler, &vec![ScriptValue::Function(5)]), Ok(()));
    assert_eq!(recv(&mut scheduler, &vec![ScriptValue::Null]), Err(BindingError::NotAFunction));
    assert_eq!(scheduler.js_recv_cb, Some(5));
}

#[test]
fn macrotask_callback_is_registered_once() {
    let mut scheduler = Scheduler::new();
    assert_eq!(set_macrotask_callback(&mut scheduler, &vec![ScriptValue::Function(21)]), Ok(()));
    assert_eq!(scheduler.js_macrotask_cb, Some(21));
    assert_eq!(
        set_macrotask_callback(&mut scheduler, &vec![ScriptValue::Function(22)]),
        Err(BindingError::AlreadyRegistered(CallbackKind::Macrotask))
    );
    assert_eq!(
        set_macrotask_callback(&mut scheduler, &vec![ScriptValue::Undefined]),
        Err(BindingError::NotAFunction)
    );
    assert_eq!(scheduler.js_macrotask_cb, Some(21));
    assert_eq!(scheduler.js_recv_cb, None);
}

#[test]
fn delivery_omits_an_empty_buffer() {
    let mut scheduler = Scheduler::new();
    recv(&mut scheduler, &vec![ScriptValue::Function(30)]).unwrap();
    let call = scheduler
        .async_op_response(Completion { op_id: 4, bytes: boxed(&[]), kept_alive: true });
    assert_eq!(call.callback, 30);
    assert_eq!(call.op_id, 4);
    assert_eq!(call.buf, None);
}

#[test]
fn delivery_carries_the_bytes() {
    let mut scheduler = Scheduler::new();
    recv(&mut scheduler, &vec![ScriptValue::Function(30)]).unwrap();
    let call = scheduler
        .async_op_response(Completion { op_id: 4, bytes: boxed(&[1, 0, 2]), kept_alive: false });
    assert_eq!(call.callback, 30);
    assert_eq!(call.op_id, 4);
    assert_eq!(call.buf.unwrap().as_slice(), &[1u8, 0, 2]);
}
