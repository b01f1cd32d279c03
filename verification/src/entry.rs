//! The four entry kinds a mediator can hold.
//!
//! A [`RequestResponse`] entry holds one synchronous callback from a message
//! to a response; a [`RequestResponseAsync`] entry holds the same shape of
//! callback but packages each invocation as a [`DeferredResponse`] the caller
//! drives.  A [`ReceiveNotification`] entry holds an ordered sequence of
//! callbacks that each observe a message by reference and return nothing; a
//! [`ReceiveNotificationAsync`] entry holds an ordered sequence of callbacks
//! that each consume their own copy of the message, and packages the whole
//! fan-out as a [`DeferredNotify`] that runs the callbacks one after another,
//! finishing each before the next starts, only when driven.
//!
//! The callbacks are opaque to the registry: every contract here speaks of
//! them only through their own pre- and postconditions.

use vstd::prelude::*;
use core::marker::PhantomData;

verus! {

/// A synchronous handler: exactly one callback from `TMsg` to `TResp`.
pub struct RequestResponse<TMsg, TResp, F> {
    /// The registered callback.
    pub cb: F,
    /// Ties the message and response types into the entry's own type.
    pub marker: PhantomData<(TMsg, TResp)>,
}

impl<TMsg, TResp, F: Fn(TMsg) -> TResp> RequestResponse<TMsg, TResp, F> {
    /// Wrap the callback `f` as a synchronous handler entry.
    pub fn new(f: F) -> (r: Self)
        ensures
            r.cb == f,
    {
        RequestResponse { cb: f, marker: PhantomData }
    }

    /// Invoke the stored callback on `msg` and return its response directly.
    pub fn call(&self, msg: TMsg) -> (r: TResp)
        requires
            call_requires(self.cb, (msg,)),
        ensures
            call_ensures(self.cb, (msg,), r),
    {
        (self.cb)(msg)
    }
}

/// An asynchronous handler: one callback from `TMsg` to `TResp`, invoked
/// only when the deferred computation returned by [`Self::call`] is driven.
pub struct RequestResponseAsync<TMsg, TResp, F> {
    /// The registered callback.
    pub cb: F,
    /// Ties the message and response types into the entry's own type.
    pub marker: PhantomData<(TMsg, TResp)>,
}

/// A deferred handler invocation: the borrowed callback together with the
/// message it will receive.  Nothing runs until [`Self::drive`] is called.
pub struct DeferredResponse<'a, TMsg, TResp, F> {
    /// The callback the computation will invoke.
    pub cb: &'a F,
    /// The message the callback will receive.
    pub msg: TMsg,
    /// Ties the response type into the computation's own type.
    pub marker: PhantomData<TResp>,
}

impl<'a, TMsg, TResp, F: Fn(TMsg) -> TResp> DeferredResponse<'a, TMsg, TResp, F> {
    /// Run the deferred invocation to completion and return its response.
    pub fn drive(self) -> (r: TResp)
        requires
            call_requires(*self.cb, (self.msg,)),
        ensures
            call_ensures(*self.cb, (self.msg,), r),
    {
        (self.cb)(self.msg)
    }
}

impl<TMsg, TResp, F: Fn(TMsg) -> TResp> RequestResponseAsync<TMsg, TResp, F> {
    /// Wrap the callback `f` as an asynchronous handler entry.
    pub fn new(f: F) -> (r: Self)
        ensures
            r.cb == f,
    {
        RequestResponseAsync { cb: f, marker: PhantomData }
    }

    /// Package the invocation of the stored callback on `msg` as a deferred
    /// computation; the callback runs only once the caller drives it.
    pub fn call(&self, msg: TMsg) -> (d: DeferredResponse<'_, TMsg, TResp, F>)
        ensures
            *d.cb == self.cb,
            d.msg == msg,
    {
        DeferredResponse { cb: &self.cb, msg: msg, marker: PhantomData }
    }
}

/// A synchronous notification entry: an ordered sequence of callbacks that
/// each observe a message by reference, invoked in the order they were added.
pub struct ReceiveNotification<TMsg, F> {
    /// The registered receivers, in the order they were added.
    pub cbs: Vec<F>,
    /// Ties the message type into the entry's own type.
    pub marker: PhantomData<TMsg>,
}

impl<TMsg, F: Fn(&TMsg)> ReceiveNotification<TMsg, F> {
    /// An entry with no receivers yet.
    pub fn new() -> (r: Self)
        ensures
            r.cbs@.len() == 0,
    {
        ReceiveNotification { cbs: Vec::new(), marker: PhantomData }
    }

    /// Append the receiver `f`; every receiver added earlier keeps its place.
    pub fn add(&mut self, f: F)
        ensures
            final(self).cbs@ == old(self).cbs@.push(f),
    {
        self.cbs.push(f);
    }

    /// Invoke every stored receiver on `msg`, in the order they were added.
    pub fn call(&self, msg: &TMsg)
        requires
            forall|i: int| 0 <= i < self.cbs@.len() ==> call_requires(#[trigger] self.cbs@[i], (msg,)),
        ensures
            forall|i: int| 0 <= i < self.cbs@.len() ==> call_ensures(#[trigger] self.cbs@[i], (msg,), ()),
    {
        let n = self.cbs.len();
        let mut k: usize = 0;
        while k < n
            invariant
                n == self.cbs@.len(),
                0 <= k <= n,
                forall|i: int| 0 <= i < self.cbs@.len() ==> call_requires(#[trigger] self.cbs@[i], (msg,)),
                forall|i: int| 0 <= i < k ==> call_ensures(#[trigger] self.cbs@[i], (msg,), ()),
            decreases n - k,
        {
            (self.cbs[k])(msg);
            k = k + 1;
        }
    }
}

/// An asynchronous notification entry: an ordered sequence of callbacks that
/// each consume their own copy of the message, run one after another only
/// when the deferred computation returned by [`Self::call`] is driven.
pub struct ReceiveNotificationAsync<TMsg, F> {
    /// The registered receivers, in the order they were added.
    pub cbs: Vec<F>,
    /// Ties the message type into the entry's own type.
    pub marker: PhantomData<TMsg>,
}

/// A deferred notification fan-out: the borrowed receiver sequence together
/// with the message.  Driving it invokes the receivers in order, completing
/// each invocation before the next begins, and hands every receiver its own
/// copy of the message.
pub struct DeferredNotify<'a, TMsg, F> {
    /// The receivers the computation will invoke, in order.
    pub cbs: &'a Vec<F>,
    /// The message each receiver will get a copy of.
    pub msg: TMsg,
}

impl<'a, TMsg: Clone, F: Fn(TMsg)> DeferredNotify<'a, TMsg, F> {
    /// Run the deferred fan-out to completion: each receiver, in the order
    /// it was added, is invoked on a copy of the message and finishes before
    /// the next receiver starts.
    pub fn drive(self)
        requires
            forall|i: int, c: TMsg|
                0 <= i < self.cbs@.len() && cloned::<TMsg>(self.msg, c)
                    ==> #[trigger] call_requires(self.cbs@[i], (c,)),
        ensures
            exists|cs: Seq<TMsg>|
                (#[trigger] cs.len()) == self.cbs@.len() && (forall|i: int|
                    0 <= i < cs.len() ==> cloned::<TMsg>(self.msg, #[trigger] cs[i])) && (forall|
                    i: int,
                |
                    0 <= i < cs.len() ==> call_ensures(#[trigger] self.cbs@[i], (cs[i],), ())),
    {
        let ghost mut copies: Seq<TMsg> = Seq::empty();
        let n = self.cbs.len();
        let mut k: usize = 0;
        while k < n
            invariant
                n == self.cbs@.len(),
                0 <= k <= n,
                copies.len() == k,
                forall|i: int, c: TMsg|
                    0 <= i < self.cbs@.len() && cloned::<TMsg>(self.msg, c)
                        ==> #[trigger] call_requires(self.cbs@[i], (c,)),
                forall|i: int| 0 <= i < k ==> cloned::<TMsg>(self.msg, #[trigger] copies[i]),
                forall|i: int| 0 <= i < k ==> call_ensures(#[trigger] self.cbs@[i], (copies[i],), ()),
            decreases n - k,
        {
            let copy = self.msg.clone();
            proof {
                assert(cloned::<TMsg>(self.msg, copy));
            }
            (self.cbs[k])(copy);
            proof {
                copies = copies.push(copy);
            }
            k = k + 1;
        }
        proof {
            assert((copies.len()) == self.cbs@.len() && (forall|i: int|
                0 <= i < copies.len() ==> cloned::<TMsg>(self.msg, #[trigger] copies[i])) && (
            forall|i: int|
                0 <= i < copies.len() ==> call_ensures(#[trigger] self.cbs@[i], (copies[i],), ())));
        }
    }
}

impl<TMsg: Clone, F: Fn(TMsg)> ReceiveNotificationAsync<TMsg, F> {
    /// An entry with no receivers yet.
    pub fn new() -> (r: Self)
        ensures
            r.cbs@.len() == 0,
    {
        ReceiveNotificationAsync { cbs: Vec::new(), marker: PhantomData }
    }

    /// Append the receiver `f`; every receiver added earlier keeps its place.
    pub fn add(&mut self, f: F)
        ensures
            final(self).cbs@ == old(self).cbs@.push(f),
    {
        self.cbs.push(f);
    }

    /// Package the fan-out to every stored receiver as a deferred
    /// computation; no receiver runs until the caller drives it.
    pub fn call(&self, msg: TMsg) -> (d: DeferredNotify<'_, TMsg, F>)
        ensures
            d.cbs@ == self.cbs@,
            d.msg == msg,
    {
        DeferredNotify { cbs: &self.cbs, msg: msg }
    }
}

} // verus!
