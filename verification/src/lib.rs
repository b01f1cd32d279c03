//! Strongly-typed, compile-time-checked mediator.
//!
//! A mediator routes typed messages to the handler or notification receivers
//! registered for exactly that message type.  Registration is tracked in the
//! *type* of the builder, so asking a mediator to dispatch a message it has no
//! entry for is rejected by the type checker rather than at run time.
//!
//! Receivers come in two kinds.  **Handlers** accept a message of type `TMsg`
//! and produce a response of type `TResp`; a mediator typically holds one
//! handler per message type.  **Notification receivers** accept a message and
//! return nothing; several may be registered for one message type and all of
//! them are invoked in the order they were added.  Both kinds exist in a
//! synchronous form, invoked inline, and a deferred form, whose invocation is
//! packaged into a value the caller drives to completion.

pub mod concrete;
pub mod entry;
pub mod fragment;
pub mod hlist;
pub mod mediator;
