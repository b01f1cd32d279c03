//! A piecewise-composable registration fragment.

use vstd::prelude::*;

use crate::concrete::Mediator;
use crate::entry::{
    ReceiveNotification, ReceiveNotificationAsync, RequestResponse, RequestResponseAsync,
};
use crate::hlist::{Cons, ContainsAt, HList, HListExt, Nil};
use crate::mediator::Mediate;

verus! {

/// A type-evolving accumulator of registrations, built up piecewise.
///
/// A fragment works exactly like [`MediatorBuilder`](crate::mediator::MediatorBuilder):
/// every registration consumes it by value and returns a fragment whose type
/// records the entry just added, and [`Fragment::build`] seals the
/// accumulated lists into an immutable mediator.  No operation here can fail
/// at run time: a call sequence that would need a missing entry does not
/// type-check.
pub struct Fragment<H, N> {
    /// The handler entries accumulated so far, newest first.
    pub contents: H,
    /// The notification entries accumulated so far, newest first.
    pub receivers: N,
}

impl Fragment<Nil, Nil> {
    /// A fragment with nothing registered.
    pub fn empty() -> (r: Self)
        ensures
            r.contents == Nil,
            r.receivers == Nil,
    {
        Fragment { contents: Nil, receivers: Nil }
    }
}

impl<H: HList, N: HList> Fragment<H, N> {
    /// Register the synchronous handler `handler`; its entry stands in front
    /// of every handler registered earlier.
    pub fn add_handler<TMsg, TResp, F: Fn(TMsg) -> TResp>(self, handler: F) -> (r: Fragment<
        Cons<RequestResponse<TMsg, TResp, F>, H>,
        N,
    >)
        ensures
            r.contents.head.cb == handler,
            r.contents.tail == self.contents,
            r.receivers == self.receivers,
    {
        let rr = RequestResponse::new(handler);
        Fragment { contents: self.contents.push(rr), receivers: self.receivers }
    }

    /// Register the asynchronous handler `handler`; its entry stands in
    /// front of every handler registered earlier.
    pub fn add_async_handler<TMsg, TResp, F: Fn(TMsg) -> TResp>(self, handler: F) -> (r:
        Fragment<Cons<RequestResponseAsync<TMsg, TResp, F>, H>, N>)
        ensures
            r.contents.head.cb == handler,
            r.contents.tail == self.contents,
            r.receivers == self.receivers,
    {
        let rr = RequestResponseAsync::new(handler);
        Fragment { contents: self.contents.push(rr), receivers: self.receivers }
    }

    /// Register a new, empty synchronous notification entry for `TMsg`;
    /// required before any receiver for `TMsg` can be added.
    pub fn listen_for<TMsg, F: Fn(&TMsg)>(self) -> (r: Fragment<
        H,
        Cons<ReceiveNotification<TMsg, F>, N>,
    >)
        ensures
            r.contents == self.contents,
            r.receivers.head.cbs@.len() == 0,
            r.receivers.tail == self.receivers,
    {
        let rn = ReceiveNotification::new();
        Fragment { contents: self.contents, receivers: self.receivers.push(rn) }
    }

    /// Register a new, empty asynchronous notification entry for `TMsg`,
    /// whose receivers will each get their own copy of a message.
    pub fn listen_for_async<TMsg: Clone, F: Fn(TMsg)>(self) -> (r: Fragment<
        H,
        Cons<ReceiveNotificationAsync<TMsg, F>, N>,
    >)
        ensures
            r.contents == self.contents,
            r.receivers.head.cbs@.len() == 0,
            r.receivers.tail == self.receivers,
    {
        let rn = ReceiveNotificationAsync::new();
        Fragment { contents: self.contents, receivers: self.receivers.push(rn) }
    }

    /// Append `receiver` to the synchronous notification entry already
    /// registered for `TMsg`; every other entry is kept, and the fragment's
    /// type does not change.
    pub fn add_notification_receiver<TMsg, F: Fn(&TMsg), I>(self, receiver: F) -> (r: Self) where
        N: ContainsAt<ReceiveNotification<TMsg, F>, I>,

        ensures
            r.contents == self.contents,
            r.receivers.at_pos().cbs@ == self.receivers.at_pos().cbs@.push(receiver),
            r.receivers == self.receivers.with_at(r.receivers.at_pos()),
    {
        let mut s = self;
        let receiver_set = s.receivers.take_mut();
        receiver_set.add(receiver);
        proof {
            assert forall|t: ReceiveNotification<TMsg, F>|
                (#[trigger] self.receivers.with_at(t)).at_pos() == t by {
                self.receivers.at_pos_with_at(t);
            }
        }
        s
    }

    /// Append `receiver` to the asynchronous notification entry already
    /// registered for `TMsg`; every other entry is kept, and the fragment's
    /// type does not change.
    pub fn add_async_notification_receiver<TMsg: Clone, F: Fn(TMsg), I>(self, receiver: F) -> (r:
        Self) where
        N: ContainsAt<ReceiveNotificationAsync<TMsg, F>, I>,

        ensures
            r.contents == self.contents,
            r.receivers.at_pos().cbs@ == self.receivers.at_pos().cbs@.push(receiver),
            r.receivers == self.receivers.with_at(r.receivers.at_pos()),
    {
        let mut s = self;
        let receiver_set = s.receivers.take_mut();
        receiver_set.add(receiver);
        proof {
            assert forall|t: ReceiveNotificationAsync<TMsg, F>|
                (#[trigger] self.receivers.with_at(t)).at_pos() == t by {
                self.receivers.at_pos_with_at(t);
            }
        }
        s
    }

    /// Seal the accumulated entries into an immutable mediator holding
    /// exactly the two lists built so far.
    pub fn build(self) -> (r: impl Mediate<Handlers = H, NotifyReceivers = N>)
        ensures
            r.handlers() == self.contents,
            r.receivers() == self.receivers,
    {
        Mediator::new(self.contents, self.receivers)
    }
}

} // verus!
