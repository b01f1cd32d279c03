use noon::entry::{
    ReceiveNotification, ReceiveNotificationAsync, RequestResponse, RequestResponseAsync,
};

use std::sync::{Arc, Mutex};

#[test]
fn request_response_invokes_callback() {
    let entry = RequestResponse::new(|x: u8| x + 1);
    assert_eq!(entry.call(2), 3);
}

#[test]
fn deferred_response_runs_only_when_driven() {
    let log = Arc::new(Mutex::new(Vec::new()));
    let inner = Arc::clone(&log);
    let entry = RequestResponseAsync::new(move |x: i32| {
        inner.lock().unwrap().push(x);
        x * 10
    });
    let deferred = entry.call(4);
    assert!(log.lock().unwrap().is_empty());
    assert_eq!(deferred.drive(), 40);
    assert_eq!(log.lock().unwrap().clone(), vec![4]);
}

#[test]
fn receive_notification_calls_receivers_in_add_order() {
    let log = Arc::new(Mutex::new(Vec::new()));
    let mk = |tag: usize| {
        let log = Arc::clone(&log);
        move |m: &u8| {
            log.lock().unwrap().push((tag, *m));
        }
    };
    let mut entry = ReceiveNotification::new();
    entry.add(mk(1));
    entry.add(mk(2));
    entry.call(&5u8);

    assert_eq!(log.lock().unwrap().clone(), vec![(1, 5), (2, 5)]);
}

#[test]
fn receive_notification_async_defers_the_fan_out() {
    let log = Arc::new(Mutex::new(Vec::new()));
    let mk = |tag: usize| {
        let log = Arc::clone(&log);
        move |m: u8| {
            log.lock().unwrap().push((tag, m));
        }
    };
    let mut entry = ReceiveNotificationAsync::new();
    entry.add(mk(1));
    entry.add(mk(2));
    let deferred = entry.call(5u8);
    assert!(log.lock().unwrap().is_empty());
    deferred.drive();

    assert_eq!(log.lock().unwrap().clone(), vec![(1, 5), (2, 5)]);
}

#[test]
fn empty_notification_entry_notifies_nobody() {
    let entry: ReceiveNotification<u8, fn(&u8)> = ReceiveNotification::new();
    entry.call(&1u8);
}
