//! The event queue: an unbounded, ordered, multi-producer/single-consumer
//! channel between the protocol task and one channel's render loop.

use vstd::prelude::*;

use crate::events::AppEvent;

verus! {

#[verifier::external_type_specification]
#[verifier::external_body]
#[verifier::reject_recursive_types(T)]
pub struct ExUnboundedSender<T>(tokio::sync::mpsc::UnboundedSender<T>);

#[verifier::external_type_specification]
#[verifier::external_body]
#[verifier::reject_recursive_types(T)]
pub struct ExUnboundedReceiver<T>(tokio::sync::mpsc::UnboundedReceiver<T>);

/// Relies on tokio's `unbounded_channel`: a fresh queue pair whose receiver
/// yields the sent events in send order, and reports end-of-stream once every
/// sender is dropped and no message is left pending.
#[verifier::external_body]
pub(crate) fn event_queue() -> (
    tokio::sync::mpsc::UnboundedSender<AppEvent>,
    tokio::sync::mpsc::UnboundedReceiver<AppEvent>,
) {
    tokio::sync::mpsc::unbounded_channel()
}

/// Relies on tokio's `UnboundedSender::send`: the event is appended to the
/// queue without ever blocking, so acknowledgment latency stays independent
/// of rendering speed.  When the receiving render loop is already gone the
/// event is discarded (fire-and-forget).
#[verifier::external_body]
pub(crate) fn send_event(sender: &tokio::sync::mpsc::UnboundedSender<AppEvent>, event: AppEvent) {
    let _ = sender.send(event);
}

} // verus!
