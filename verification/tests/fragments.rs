use noon::fragment::Fragment;
use noon::mediator::Mediate;

use std::sync::{Arc, Mutex};

#[test]
fn fragment_registers_and_dispatches() {
    let mediator = Fragment::empty().add_handler(|x: u32| x + 1).build();
    assert_eq!(mediator.handle(41u32), 42);
}

#[test]
fn fragment_notifies_in_add_order() {
    let log = Arc::new(Mutex::new(Vec::new()));
    let mk = |tag: usize| {
        let log = Arc::clone(&log);
        move |_m: &i64| {
            log.lock().unwrap().push(tag);
        }
    };
    let mediator = Fragment::empty()
        .listen_for::<i64, _>()
        .add_notification_receiver(mk(5))
        .add_notification_receiver(mk(6))
        .build();
    mediator.notify(&-3i64);

    assert_eq!(log.lock().unwrap().clone(), vec![5, 6]);
}

#[test]
fn fragment_drives_async_handler() {
    let mediator = Fragment::empty().add_async_handler(|x: i32| x - 1).build();
    assert_eq!(mediator.handle_async(1).drive(), 0);
}

#[test]
fn fragment_drives_async_receivers() {
    let log = Arc::new(Mutex::new(Vec::new()));
    let mk = |tag: usize| {
        let log = Arc::clone(&log);
        move |m: u16| {
            log.lock().unwrap().push((tag, m));
        }
    };
    let mediator = Fragment::empty()
        .listen_for_async::<u16, _>()
        .add_async_notification_receiver(mk(1))
        .add_async_notification_receiver(mk(2))
        .build();
    mediator.notify_async(9u16).drive();

    assert_eq!(log.lock().unwrap().clone(), vec![(1, 9), (2, 9)]);
}
