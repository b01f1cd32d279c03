use noon::hlist::{ContainsAt, Succ, Z};
use noon::entry::RequestResponse;
use noon::mediator::{Mediate, MediatorBuilder};

use std::sync::atomic::{AtomicUsize, Ordering};
use std::sync::{Arc, Mutex};

#[allow(dead_code)]
fn typecheck_helper<M, FInt, FBool, IntIndex, BoolIndex>(mediator: M)
where
    M: Mediate,
    FInt: Fn(i32),
    FBool: Fn(bool),
    <M as Mediate>::Handlers: ContainsAt<RequestResponse<i32, (), FInt>, IntIndex>,
    <M as Mediate>::Handlers: ContainsAt<RequestResponse<bool, (), FBool>, BoolIndex>,
{
    mediator.handle(12i32);
    mediator.handle(false);
}

#[test]
fn should_typecheck() {
    // `typecheck_helper` above dispatches against any mediator whose type
    // proves it holds handlers for `i32` and `bool`; compiling it is the test.
}

#[test]
fn should_create() {
    let mediator = MediatorBuilder::new()
        .add_handler(|x: i32| {
            println!("i32: {}", x);
            18
        })
        .add_handler(|_x: bool| true)
        .add_handler(|_x: bool| "yes")
        .build();
    let result = mediator.handle(5);
    assert_eq!(result, 18);
}

#[test]
fn should_notify() {
    let val = Arc::new(AtomicUsize::new(0));

    let handler_val = Arc::clone(&val);
    let mediator = MediatorBuilder::new()
        .add_handler(|x: i32| x)
        .listen_for::<i32, fn(&i32)>()
        .listen_for::<bool, _>()
        .add_notification_receiver(move |_x: &bool| {
            handler_val.fetch_add(1, Ordering::SeqCst);
        })
        .build();
    mediator.notify(&true);

    assert_eq!(val.load(Ordering::SeqCst), 1)
}

#[test]
fn should_register_async() {
    let mediator = MediatorBuilder::new().add_async_handler(|x: i32| x).build();
    let _ = mediator.handle_async(5).drive();
}

#[test]
fn should_notify_async() {
    let mediator = MediatorBuilder::new()
        .listen_for_async::<bool, _>()
        .add_async_notification_receiver(|_x: bool| {})
        .build();
    mediator.notify_async(true).drive();
}

#[test]
fn handle_returns_identity_result() {
    let mediator = MediatorBuilder::new().add_handler(|x: i32| x).build();
    assert_eq!(mediator.handle(5), 5);
}

#[test]
fn notify_counts_both_receivers_in_order() {
    let log = Arc::new(Mutex::new(Vec::new()));
    let mk = |amount: usize| {
        let log = Arc::clone(&log);
        move |_m: &bool| {
            log.lock().unwrap().push(amount);
        }
    };
    let mediator = MediatorBuilder::new()
        .listen_for::<bool, _>()
        .add_notification_receiver(mk(1))
        .add_notification_receiver(mk(10))
        .build();
    mediator.notify(&true);

    let entries = log.lock().unwrap().clone();
    assert_eq!(entries, vec![1, 10]);
    let counter: usize = entries.iter().sum();
    assert_eq!(counter, 11);
}

#[test]
fn notify_invokes_each_receiver_once_in_add_order() {
    let log = Arc::new(Mutex::new(Vec::new()));
    let mk = |tag: usize| {
        let log = Arc::clone(&log);
        move |_m: &u8| {
            log.lock().unwrap().push(tag);
        }
    };
    let mediator = MediatorBuilder::new()
        .listen_for::<u8, _>()
        .add_notification_receiver(mk(1))
        .add_notification_receiver(mk(2))
        .add_notification_receiver(mk(3))
        .build();
    mediator.notify(&7u8);

    assert_eq!(log.lock().unwrap().clone(), vec![1, 2, 3]);
}

#[test]
fn notify_async_completes_receivers_sequentially() {
    let log = Arc::new(Mutex::new(Vec::new()));
    let mk = |tag: usize| {
        let log = Arc::clone(&log);
        move |_m: bool| {
            log.lock().unwrap().push(tag);
        }
    };
    let mediator = MediatorBuilder::new()
        .listen_for_async::<bool, _>()
        .add_async_notification_receiver(mk(1))
        .add_async_notification_receiver(mk(2))
        .build();
    let deferred = mediator.notify_async(true);
    assert!(log.lock().unwrap().is_empty());
    deferred.drive();

    assert_eq!(log.lock().unwrap().clone(), vec![1, 2]);
}

#[test]
fn handle_async_drives_to_direct_call_result() {
    let double = |x: i32| x * 2;
    let mediator = MediatorBuilder::new().add_async_handler(double).build();
    let deferred = mediator.handle_async(21);
    assert_eq!(deferred.drive(), double(21));
}

#[test]
fn handlers_with_same_message_type_are_selected_by_response_type() {
    let mediator = MediatorBuilder::new()
        .add_handler(|b: bool| !b)
        .add_handler(|b: bool| if b { String::from("yes") } else { String::from("no") })
        .build();
    let text: String = mediator.handle(true);
    assert_eq!(text, "yes");
    let flag: bool = mediator.handle(true);
    assert_eq!(flag, false);
}

#[allow(dead_code)]
fn double_it(x: i32) -> i32 {
    x * 2
}

#[allow(dead_code)]
fn negate_it(x: i32) -> i32 {
    -x
}

#[test]
fn explicit_witness_selects_among_identical_entries() {
    let mediator = MediatorBuilder::new()
        .add_handler(double_it as fn(i32) -> i32)
        .add_handler(negate_it as fn(i32) -> i32)
        .build();
    // Registration prepends, so the zero witness names the newest entry and
    // each successor steps one registration further back.
    let newest = mediator.handle::<i32, i32, fn(i32) -> i32, Z>(7);
    assert_eq!(newest, -7);
    let older = mediator.handle::<i32, i32, fn(i32) -> i32, Succ<Z>>(7);
    assert_eq!(older, 14);
}

#[test]
fn empty_builder_seals_inert_facade() {
    let _mediator = MediatorBuilder::new().build();
    // Nothing was registered, so this mediator holds no callback at all and
    // no dispatch call against it can even be written.
}
