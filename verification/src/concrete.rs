//! The sealed mediator produced by a builder.

use vstd::prelude::*;

use crate::entry::{
    DeferredNotify, DeferredResponse, ReceiveNotification, ReceiveNotificationAsync,
    RequestResponse, RequestResponseAsync,
};
use crate::hlist::{ContainsAt, HList};
use crate::mediator::Mediate;

verus! {

/// A sealed mediator: two immutable type-level lists, one of handler
/// entries and one of notification entries.  After construction nothing can
/// be registered; every operation is a read-only lookup and invocation.
pub struct Mediator<H, N> {
    /// The handler entries, newest registration first.
    pub contents: H,
    /// The notification entries, newest registration first.
    pub receivers: N,
}

impl<H: HList, N: HList> Mediator<H, N> {
    /// Seal the two entry lists into a mediator.
    pub(crate) fn new(contents: H, receivers: N) -> (r: Self)
        ensures
            r.contents == contents,
            r.receivers == receivers,
    {
        Mediator { contents: contents, receivers: receivers }
    }
}

impl<H: HList, N: HList> Mediate for Mediator<H, N> {
    type Handlers = H;

    type NotifyReceivers = N;

    open spec fn handlers(&self) -> H {
        self.contents
    }

    open spec fn receivers(&self) -> N {
        self.receivers
    }

    fn handle<TMsg, TResp, F: Fn(TMsg) -> TResp, I>(&self, msg: TMsg) -> (r: TResp) where
        H: ContainsAt<RequestResponse<TMsg, TResp, F>, I>,
     {
        let handler = self.contents.take();
        handler.call(msg)
    }

    fn handle_async<'a, TMsg: 'a, TResp: 'a, F: 'a + Fn(TMsg) -> TResp, I>(&'a self, msg: TMsg) -> (d:
        DeferredResponse<'a, TMsg, TResp, F>) where
        H: ContainsAt<RequestResponseAsync<TMsg, TResp, F>, I>,
     {
        let handler = self.contents.take();
        handler.call(msg)
    }

    fn notify<TMsg, F: Fn(&TMsg), I>(&self, msg: &TMsg) where
        N: ContainsAt<ReceiveNotification<TMsg, F>, I>,
     {
        let receiver_set = self.receivers.take();
        receiver_set.call(msg)
    }

    fn notify_async<'a, TMsg: 'a + Clone, F: 'a + Fn(TMsg), I>(&'a self, msg: TMsg) -> (d: DeferredNotify<
        'a,
        TMsg,
        F,
    >) where N: ContainsAt<ReceiveNotificationAsync<TMsg, F>, I> {
        let receiver_set = self.receivers.take();
        receiver_set.call(msg)
    }
}

} // verus!
