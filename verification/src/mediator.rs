//! The dispatch interface and the builder that produces a mediator.
//!
//! [`Mediate`] is the sealed dispatch surface: four operations, each
//! well-typed only when the mediator's type-level entry lists contain an
//! entry for the message type in question, found through
//! [`ContainsAt`](crate::hlist::ContainsAt).  [`MediatorBuilder`] accumulates
//! entries: every registration consumes the builder and returns one whose
//! type records the new entry, and `build` seals the accumulated lists into
//! an immutable [`Mediator`](crate::concrete::Mediator).

use vstd::prelude::*;

use crate::concrete::Mediator;
use crate::entry::{
    DeferredNotify, DeferredResponse, ReceiveNotification, ReceiveNotificationAsync,
    RequestResponse, RequestResponseAsync,
};
use crate::hlist::{Cons, ContainsAt, HList, HListExt, Nil};

verus! {

/// The sealed dispatch surface of a mediator.
///
/// The two type-level lists record every registered entry; each dispatch
/// operation demands, through a containment bound, that an entry for the
/// message type exists, so a missing registration is a type error at the
/// call site rather than a failure at run time.
pub trait Mediate {
    /// The type-level list of handler entries.
    type Handlers: HList;

    /// The type-level list of notification entries.
    type NotifyReceivers: HList;

    /// The handler entries this mediator holds.
    spec fn handlers(&self) -> Self::Handlers;

    /// The notification entries this mediator holds.
    spec fn receivers(&self) -> Self::NotifyReceivers;

    /// Route `msg` to the synchronous handler registered for its type and
    /// return that handler's response.
    fn handle<TMsg, TResp, F: Fn(TMsg) -> TResp, I>(&self, msg: TMsg) -> (r: TResp) where
        Self::Handlers: ContainsAt<RequestResponse<TMsg, TResp, F>, I>,

        requires
            call_requires(self.handlers().at_pos().cb, (msg,)),
        ensures
            call_ensures(self.handlers().at_pos().cb, (msg,), r),
    ;

    /// Route `msg` to the asynchronous handler registered for its type; the
    /// handler runs only when the returned computation is driven.
    fn handle_async<'a, TMsg: 'a, TResp: 'a, F: 'a + Fn(TMsg) -> TResp, I>(&'a self, msg: TMsg) -> (d:
        DeferredResponse<'a, TMsg, TResp, F>) where
        Self::Handlers: ContainsAt<RequestResponseAsync<TMsg, TResp, F>, I>,

        ensures
            *d.cb == self.handlers().at_pos().cb,
            d.msg == msg,
    ;

    /// Present `msg` to every receiver of the synchronous notification entry
    /// registered for its type, in the order the receivers were added.
    fn notify<TMsg, F: Fn(&TMsg), I>(&self, msg: &TMsg) where
        Self::NotifyReceivers: ContainsAt<ReceiveNotification<TMsg, F>, I>,

        requires
            forall|i: int|
                0 <= i < self.receivers().at_pos().cbs@.len() ==> call_requires(
                    #[trigger] self.receivers().at_pos().cbs@[i],
                    (msg,),
                ),
        ensures
            forall|i: int|
                0 <= i < self.receivers().at_pos().cbs@.len() ==> call_ensures(
                    #[trigger] self.receivers().at_pos().cbs@[i],
                    (msg,),
                    (),
                ),
    ;

    /// Package the fan-out of `msg` to the asynchronous notification entry
    /// registered for its type; no receiver runs until the returned
    /// computation is driven, and each receiver then gets its own copy.
    fn notify_async<'a, TMsg: 'a + Clone, F: 'a + Fn(TMsg), I>(&'a self, msg: TMsg) -> (d: DeferredNotify<
        'a,
        TMsg,
        F,
    >) where Self::NotifyReceivers: ContainsAt<ReceiveNotificationAsync<TMsg, F>, I>
        ensures
            d.cbs@ == self.receivers().at_pos().cbs@,
            d.msg == msg,
    ;
}

/// Dispatch returns exactly what the registered callback returns.
///
/// Every dispatch operation promises that its result satisfies the stored
/// callback's postcondition for the message dispatched — synchronously
/// through [`Mediate::handle`], or by driving the computation returned by
/// [`Mediate::handle_async`].  So whenever the callback `f` determines its
/// response — every response it admits for `msg` equals `v` — any result `r`
/// such a dispatch of `msg` can produce equals `v`: the call through the
/// mediator returns the same value a direct call of `f` would.
pub proof fn lemma_dispatch_returns_callback_result<TMsg, TResp, F: Fn(TMsg) -> TResp>(
    f: F,
    msg: TMsg,
    v: TResp,
    r: TResp,
)
    requires
        forall|ret: TResp| call_ensures(f, (msg,), ret) ==> ret == v,
        call_ensures(f, (msg,), r),
    ensures
        r == v,
{
}

/// A type-evolving accumulator of registrations.
///
/// Every registration consumes the builder by value and returns a builder
/// whose type records the entry just added, so the set of registered entries
/// is part of the builder's type and [`MediatorBuilder::build`] seals exactly
/// that set.  No operation here can fail at run time: a call sequence that
/// would need a missing entry does not type-check.
pub struct MediatorBuilder<H, N> {
    /// The handler entries accumulated so far, newest first.
    pub contents: H,
    /// The notification entries accumulated so far, newest first.
    pub receivers: N,
}

impl MediatorBuilder<Nil, Nil> {
    /// A builder with nothing registered.
    pub fn new() -> (r: Self)
        ensures
            r.contents == Nil,
            r.receivers == Nil,
    {
        MediatorBuilder { contents: Nil, receivers: Nil }
    }
}

impl<H: HList, N: HList> MediatorBuilder<H, N> {
    /// Register the synchronous handler `handler`; its entry stands in front
    /// of every handler registered earlier.
    pub fn add_handler<TMsg, TResp, F: Fn(TMsg) -> TResp>(self, handler: F) -> (r: MediatorBuilder<
        Cons<RequestResponse<TMsg, TResp, F>, H>,
        N,
    >)
        ensures
            r.contents.head.cb == handler,
            r.contents.tail == self.contents,
            r.receivers == self.receivers,
    {
        let rr = RequestResponse::new(handler);
        MediatorBuilder { contents: self.contents.push(rr), receivers: self.receivers }
    }

    /// Register the asynchronous handler `handler`; its entry stands in
    /// front of every handler registered earlier.
    pub fn add_async_handler<TMsg, TResp, F: Fn(TMsg) -> TResp>(self, handler: F) -> (r:
        MediatorBuilder<Cons<RequestResponseAsync<TMsg, TResp, F>, H>, N>)
        ensures
            r.contents.head.cb == handler,
            r.contents.tail == self.contents,
            r.receivers == self.receivers,
    {
        let rr = RequestResponseAsync::new(handler);
        MediatorBuilder { contents: self.contents.push(rr), receivers: self.receivers }
    }

    /// Register a new, empty synchronous notification entry for `TMsg`;
    /// required before any receiver for `TMsg` can be added.
    pub fn listen_for<TMsg, F: Fn(&TMsg)>(self) -> (r: MediatorBuilder<
        H,
        Cons<ReceiveNotification<TMsg, F>, N>,
    >)
        ensures
            r.contents == self.contents,
            r.receivers.head.cbs@.len() == 0,
            r.receivers.tail == self.receivers,
    {
        let rn = ReceiveNotification::new();
        MediatorBuilder { contents: self.contents, receivers: self.receivers.push(rn) }
    }

    /// Register a new, empty asynchronous notification entry for `TMsg`,
    /// whose receivers will each get their own copy of a message.
    pub fn listen_for_async<TMsg: Clone, F: Fn(TMsg)>(self) -> (r: MediatorBuilder<
        H,
        Cons<ReceiveNotificationAsync<TMsg, F>, N>,
    >)
        ensures
            r.contents == self.contents,
            r.receivers.head.cbs@.len() == 0,
            r.receivers.tail == self.receivers,
    {
        let rn = ReceiveNotificationAsync::new();
        MediatorBuilder { contents: self.contents, receivers: self.receivers.push(rn) }
    }

    /// Append `receiver` to the synchronous notification entry already
    /// registered for `TMsg`; every other entry is kept, and the builder's
    /// type does not change.
    pub fn add_notification_receiver<TMsg, F: Fn(&TMsg), I>(self, receiver: F) -> (r: Self) where
        N: ContainsAt<ReceiveNotification<TMsg, F>, I>,

        ensures
            r.contents == self.contents,
            r.receivers.at_pos().cbs@ == self.receivers.at_pos().cbs@.push(receiver),
            r.receivers == self.receivers.with_at(r.receivers.at_pos()),
    {
        let mut s = self;
        let receiver_set = s.receivers.take_mut();
        receiver_set.add(receiver);
        proof {
            assert forall|t: ReceiveNotification<TMsg, F>|
                (#[trigger] self.receivers.with_at(t)).at_pos() == t by {
                self.receivers.at_pos_with_at(t);
            }
        }
        s
    }

    /// Append `receiver` to the asynchronous notification entry already
    /// registered for `TMsg`; every other entry is kept, and the builder's
    /// type does not change.
    pub fn add_async_notification_receiver<TMsg: Clone, F: Fn(TMsg), I>(self, receiver: F) -> (r:
        Self) where
        N: ContainsAt<ReceiveNotificationAsync<TMsg, F>, I>,

        ensures
            r.contents == self.contents,
            r.receivers.at_pos().cbs@ == self.receivers.at_pos().cbs@.push(receiver),
            r.receivers == self.receivers.with_at(r.receivers.at_pos()),
    {
        let mut s = self;
        let receiver_set = s.receivers.take_mut();
        receiver_set.add(receiver);
        proof {
            assert forall|t: ReceiveNotificationAsync<TMsg, F>|
                (#[trigger] self.receivers.with_at(t)).at_pos() == t by {
                self.receivers.at_pos_with_at(t);
            }
        }
        s
    }

    /// Seal the accumulated entries into an immutable mediator holding
    /// exactly the two lists built so far.
    pub fn build(self) -> (r: impl Mediate<Handlers = H, NotifyReceivers = N>)
        ensures
            r.handlers() == self.contents,
            r.receivers() == self.receivers,
    {
        Mediator::new(self.contents, self.receivers)
    }
}

} // verus!
