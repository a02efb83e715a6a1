//! Channel lifecycle and render loop for a terminal application hosted over a
//! remote-shell connection.
//!
//! Each connection owns at most one application channel.  The channel
//! negotiates a virtual terminal (a PTY with a column/row geometry) and feeds
//! typed events into a render loop, which turns the current viewport into a
//! deterministic stream of terminal control bytes.

use vstd::prelude::*;

pub mod bridge;
pub mod client;
pub mod events;
pub mod queue;
pub mod render;
pub mod viewport;

verus! {

/// Protocol-level acknowledgment for a fallible channel request: the remote
/// peer is told whether the request was carried out.
#[derive(Clone, Copy, Debug, PartialEq, Eq, Structural)]
pub enum Ack {
    Success,
    Failure,
}

/// Uniform adapter from the outcome of a channel operation to the
/// acknowledgment owed to the remote peer: success exactly when the
/// operation succeeded.
pub fn ack_of<T, E>(r: &Result<T, E>) -> (a: Ack)
    ensures
        a == Ack::Success <==> r is Ok,
{
    match r {
        Ok(_) => Ack::Success,
        Err(_) => Ack::Failure,
    }
}

} // verus!
