//! The relay: an inbound frame goes out to every connection of the table,
//! the sender included.
//!
//! Every connection is handed the same frame, as it came. Delivery is best
//! effort: a connection whose queue no longer takes frames is passed over,
//! and the others get theirs all the same. What a queue holds afterwards is
//! the queue's own matter: it keeps the frames that it took in the order in
//! which they were handed to it.

use crate::outbound::{enqueue_text, Socket};
use crate::registry::{ConnectionId, Recipient, Registry};
use vstd::prelude::*;

verus! {

/// One frame on its way to one connection.
pub struct Outgoing<'a> {
    pub id: ConnectionId,
    pub socket: &'a Socket,
    pub frame: &'a str,
}

/// What became of one frame for one connection.
#[derive(Debug, Clone, Copy, PartialEq, Eq, Structural)]
pub struct Delivery {
    pub id: ConnectionId,
    /// Whether the connection's queue took the frame.
    pub delivered: bool,
}

/// Whether `outgoing` holds the frame `text` once for each of `recipients`,
/// in their order, each for the recipient's own queue.
pub open spec fn addressed_to_each(
    outgoing: Seq<Outgoing>,
    recipients: Seq<Recipient>,
    text: Seq<char>,
) -> bool {
    &&& outgoing.len() == recipients.len()
    &&& forall|i: int|
        0 <= i < outgoing.len() ==> (#[trigger] outgoing[i]).id == recipients[i].id
            && outgoing[i].socket == recipients[i].socket && outgoing[i].frame@ == text
}

/// Whether `deliveries` reports one attempt for each of `recipients`, in
/// their order.
pub open spec fn attempted_each(deliveries: Seq<Delivery>, recipients: Seq<Recipient>) -> bool {
    &&& deliveries.len() == recipients.len()
    &&& forall|i: int| 0 <= i < deliveries.len() ==> (#[trigger] deliveries[i]).id == recipients[i].id
}

/// Addresses the frame `text` to each of `recipients`: every one of them,
/// the sender among them, is to get the same text, as it is.
pub fn address<'a>(recipients: &Vec<Recipient<'a>>, text: &'a str) -> (outgoing: Vec<Outgoing<'a>>)
    ensures
        addressed_to_each(outgoing@, recipients@, text@),
{
    let mut outgoing: Vec<Outgoing<'a>> = Vec::new();
    let mut i: usize = 0;
    while i < recipients.len()
        invariant
            i <= recipients.len(),
            outgoing@.len() == i,
            forall|j: int|
                0 <= j < i ==> (#[trigger] outgoing@[j]).id == recipients@[j].id
                    && outgoing@[j].socket == recipients@[j].socket && outgoing@[j].frame@
                    == text@,
        decreases recipients.len() - i,
    {
        outgoing.push(
            Outgoing { id: recipients[i].id, socket: recipients[i].socket, frame: text },
        );
        i += 1;
    }
    outgoing
}

/// Hands one frame to the queue that it is addressed to, and reports
/// whether the queue took it.
pub fn deliver(outgoing: &Outgoing<'_>) -> (delivery: Delivery)
    ensures
        delivery.id == outgoing.id,
{
    let delivered = enqueue_text(outgoing.socket, outgoing.frame);
    Delivery { id: outgoing.id, delivered }
}

/// Enqueues the frame `text` for each of `recipients`, in their order, and
/// reports what became of each attempt. A failed attempt stops nothing:
/// whatever the queues answer, every recipient is tried exactly once.
pub fn broadcast(recipients: &Vec<Recipient<'_>>, text: &str) -> (deliveries: Vec<Delivery>)
    ensures
        attempted_each(deliveries@, recipients@),
{
    let outgoing = address(recipients, text);
    let mut deliveries: Vec<Delivery> = Vec::new();
    let mut i: usize = 0;
    while i < outgoing.len()
        invariant
            i <= outgoing.len(),
            addressed_to_each(outgoing@, recipients@, text@),
            deliveries@.len() == i,
            forall|j: int| 0 <= j < i ==> (#[trigger] deliveries@[j]).id == recipients@[j].id,
        decreases outgoing.len() - i,
    {
        let delivery = deliver(&outgoing[i]);
        deliveries.push(delivery);
        i += 1;
    }
    deliveries
}

/// Relays the frame `text` to every connection that stands in the table at
/// this moment. The report holds one attempt for each of them and for no
/// other id, whatever the queues answer.
pub fn relay(registry: &Registry, text: &str) -> (deliveries: Vec<Delivery>)
    ensures
        registry@.dom().finite(),
        deliveries@.len() == registry@.len(),
        forall|i: int|
            0 <= i < deliveries@.len() ==> registry@.contains_key((#[trigger] deliveries@[i]).id),
        forall|i: int, j: int|
            0 <= i < j < deliveries@.len() ==> deliveries@[i].id != deliveries@[j].id,
        forall|id: ConnectionId|
            registry@.contains_key(id) ==> exists|i: int|
                0 <= i < deliveries@.len() && (#[trigger] deliveries@[i]).id == id,
{
    let recipients = registry.snapshot();
    let deliveries = broadcast(&recipients, text);
    proof {
        assert forall|i: int| 0 <= i < deliveries@.len() implies registry@.contains_key(
            (#[trigger] deliveries@[i]).id,
        ) by {
            assert(registry@.contains_key(recipients@[i].id));
        }
        assert forall|id: ConnectionId| registry@.contains_key(id) implies exists|i: int|
            0 <= i < deliveries@.len() && (#[trigger] deliveries@[i]).id == id by {
            let at = choose|at: int| 0 <= at < recipients@.len() && #[trigger] recipients@[at].id == id;
            assert(deliveries@[at].id == id);
        }
    }
    deliveries
}

} // verus!
