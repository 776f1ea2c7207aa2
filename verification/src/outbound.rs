//! The outbound handle of a connection: the sending half of the unbounded
//! queue that the connection's send loop drains.
//!
//! The queue has no bound, so an enqueue never waits and never drops a
//! frame; it fails only once the send loop has gone.

use vstd::prelude::*;

verus! {

/// `tokio::sync::mpsc::UnboundedSender`, the sending half of an unbounded
/// channel. Nothing is known of what a value holds.
#[verifier::external_type_specification]
#[verifier::external_body]
#[verifier::reject_recursive_types(T)]
pub struct ExUnboundedSender<T>(tokio::sync::mpsc::UnboundedSender<T>);

/// `warp::ws::Message`, one websocket message. Nothing is known of what a
/// value holds.
#[verifier::external_type_specification]
#[verifier::external_body]
pub struct ExMessage(warp::ws::Message);

/// The outbound handle of a connection.
pub type Socket = tokio::sync::mpsc::UnboundedSender<warp::ws::Message>;

/// Enqueues a text frame: `warp::ws::Message::text` makes the message and
/// `UnboundedSender::send` hands it to the queue. The result says whether
/// the queue took it; it does not when the receiving half is closed or
/// dropped. Which of the two happens is not a matter of the arguments, so
/// nothing is claimed of the result.
#[verifier::external_body]
pub(crate) fn enqueue_text(socket: &Socket, text: &str) -> (taken: bool) {
    socket.send(warp::ws::Message::text(text)).is_ok()
}

} // verus!
