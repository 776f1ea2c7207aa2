//! The table of live connections.
//!
//! Every connection gets an id from a [`ConnectionCounter`] when it is
//! accepted and stands in the [`Registry`] under that id until its session
//! is torn down.

use crate::outbound::Socket;
use std::collections::HashMap;
use vstd::std_specs::iter::IteratorSpec;
use vstd::prelude::*;

verus! {

broadcast use vstd::std_specs::hash::group_hash_axioms;

/// The id of a connection.
pub type ConnectionId = usize;

/// Who a connection has logged in as.
#[derive(Debug, Clone, Copy, PartialEq, Eq, Structural)]
pub struct AuthenticatedIdentity {
    pub user_id: i32,
}

/// What the hub holds of one connection: its outbound handle and, once it
/// has logged in, its identity.
pub struct WsClient {
    pub socket: Socket,
    pub user: Option<AuthenticatedIdentity>,
}

impl WsClient {
    /// The state of a connection that has not logged in.
    pub fn default(socket: Socket) -> (client: WsClient)
        ensures
            client.socket == socket,
            client.user is None,
    {
        WsClient { socket, user: None }
    }
}

/// A register call found its id in the table already.
#[derive(Debug, Clone, Copy, PartialEq, Eq, Structural)]
pub struct RegistryInvariantViolation;

/// The table after a connection was entered: as before where the id stood
/// in it already, and with the connection under its id otherwise.
pub open spec fn registered(
    table: Map<ConnectionId, WsClient>,
    id: ConnectionId,
    client: WsClient,
) -> Map<ConnectionId, WsClient> {
    if table.contains_key(id) {
        table
    } else {
        table.insert(id, client)
    }
}

/// The table after a connection was taken out.
pub open spec fn deregistered(table: Map<ConnectionId, WsClient>, id: ConnectionId) -> Map<
    ConnectionId,
    WsClient,
> {
    table.remove(id)
}

/// The table after an identity was attached to a connection: as before
/// where the connection is not in it or has an identity already.
pub open spec fn authenticated(
    table: Map<ConnectionId, WsClient>,
    id: ConnectionId,
    identity: AuthenticatedIdentity,
) -> Map<ConnectionId, WsClient> {
    if table.contains_key(id) && table[id].user is None {
        table.insert(id, WsClient { socket: table[id].socket, user: Some(identity) })
    } else {
        table
    }
}

/// An identity, once attached, stays: attaching another changes nothing.
pub proof fn lemma_identity_is_attached_once(
    table: Map<ConnectionId, WsClient>,
    id: ConnectionId,
    first: AuthenticatedIdentity,
    second: AuthenticatedIdentity,
)
    ensures
        authenticated(authenticated(table, id, first), id, second) == authenticated(
            table,
            id,
            first,
        ),
{
}

/// Taking a connection out a second time changes nothing.
pub proof fn lemma_deregister_is_idempotent(table: Map<ConnectionId, WsClient>, id: ConnectionId)
    ensures
        deregistered(deregistered(table, id), id) == deregistered(table, id),
{
    assert(deregistered(deregistered(table, id), id) =~= deregistered(table, id));
}

/// One call on the table that changes which connections stand in it.
pub enum RegistryOp {
    Register(ConnectionId, WsClient),
    Deregister(ConnectionId),
}

/// The table that a run of calls leaves, starting from the empty one.
pub open spec fn table_after(ops: Seq<RegistryOp>) -> Map<ConnectionId, WsClient>
    decreases ops.len(),
{
    if ops.len() == 0 {
        Map::empty()
    } else {
        let before = table_after(ops.drop_last());
        match ops.last() {
            RegistryOp::Register(id, client) => registered(before, id, client),
            RegistryOp::Deregister(id) => deregistered(before, id),
        }
    }
}

/// Whether a run of calls registers `id` and does not deregister it
/// afterwards.
pub open spec fn live_after(ops: Seq<RegistryOp>, id: ConnectionId) -> bool {
    exists|i: int|
        0 <= i < ops.len() && #[trigger] registers(ops[i], id) && forall|j: int|
            i < j < ops.len() ==> !#[trigger] deregisters(ops[j], id)
}

/// Whether a call registers `id`.
pub open spec fn registers(op: RegistryOp, id: ConnectionId) -> bool {
    op matches RegistryOp::Register(entered, _) && entered == id
}

/// Whether a call deregisters `id`.
pub open spec fn deregisters(op: RegistryOp, id: ConnectionId) -> bool {
    op matches RegistryOp::Deregister(removed) && removed == id
}

/// After any run of register and deregister calls the table holds exactly
/// the ids that were registered and not deregistered since, each under one
/// entry, and it holds finitely many.
pub proof fn lemma_table_holds_live_ids(ops: Seq<RegistryOp>)
    ensures
        table_after(ops).dom().finite(),
        forall|id: ConnectionId| table_after(ops).contains_key(id) <==> live_after(ops, id),
    decreases ops.len(),
{
    if ops.len() > 0 {
        let earlier = ops.drop_last();
        lemma_table_holds_live_ids(earlier);
        assert forall|id: ConnectionId| table_after(ops).contains_key(id) <==> live_after(
            ops,
            id,
        ) by {
            let last = ops.len() - 1;
            if live_after(earlier, id) {
                let i = choose|i: int|
                    0 <= i < earlier.len() && #[trigger] registers(earlier[i], id) && forall|j: int|
                        i < j < earlier.len() ==> !#[trigger] deregisters(earlier[j], id);
                assert(earlier[i] == ops[i]);
                assert forall|j: int| i < j < last implies !#[trigger] deregisters(ops[j], id) by {
                    assert(earlier[j] == ops[j]);
                }
                if !deregisters(ops[last], id) {
                    assert(registers(ops[i], id));
                    assert(live_after(ops, id));
                }
            }
            if registers(ops[last], id) {
                assert(live_after(ops, id));
            }
            if live_after(ops, id) {
                let i = choose|i: int|
                    0 <= i < ops.len() && #[trigger] registers(ops[i], id) && forall|j: int|
                        i < j < ops.len() ==> !#[trigger] deregisters(ops[j], id);
                if i < last {
                    assert(earlier[i] == ops[i]);
                    assert forall|j: int| i < j < earlier.len() implies !#[trigger] deregisters(
                        earlier[j],
                        id,
                    ) by {
                        assert(earlier[j] == ops[j]);
                    }
                    assert(registers(earlier[i], id));
                    assert(live_after(earlier, id));
                    assert(!deregisters(ops[last], id));
                }
            }
        }
    }
}

/// Hands out connection ids: each one larger than all before it, none
/// twice.
pub struct ConnectionCounter {
    next: ConnectionId,
}

impl ConnectionCounter {
    /// The id that the next connection gets.
    pub closed spec fn upcoming(&self) -> ConnectionId {
        self.next
    }

    /// A counter whose first id is 1.
    pub fn new() -> (counter: ConnectionCounter)
        ensures
            counter.upcoming() == 1,
    {
        ConnectionCounter { next: 1 }
    }

    /// A counter whose first id is `first`.
    pub fn starting_at(first: ConnectionId) -> (counter: ConnectionCounter)
        ensures
            counter.upcoming() == first,
    {
        ConnectionCounter { next: first }
    }

    /// The id for a new connection. It is `None` once every id below
    /// `usize::MAX` has been handed out; the counter then stays as it is.
    pub fn allocate(&mut self) -> (id: Option<ConnectionId>)
        ensures
            match id {
                Some(id) => id == old(self).upcoming() && final(self).upcoming() == id + 1,
                None => old(self).upcoming() == usize::MAX && final(self).upcoming()
                    == usize::MAX,
            },
    {
        if self.next == usize::MAX {
            None
        } else {
            let id = self.next;
            self.next = id + 1;
            Some(id)
        }
    }
}

/// The table of live connections, by id.
pub struct Registry {
    clients: HashMap<ConnectionId, WsClient>,
}

impl View for Registry {
    type V = Map<ConnectionId, WsClient>;

    closed spec fn view(&self) -> Map<ConnectionId, WsClient> {
        self.clients@
    }
}

impl Registry {
    /// An empty table.
    pub fn new() -> (registry: Registry)
        ensures
            registry@ == Map::<ConnectionId, WsClient>::empty(),
            registry@.dom().finite(),
    {
        Registry { clients: HashMap::new() }
    }

    /// A table holds finitely many connections.
    pub proof fn lemma_finite(&self)
        ensures
            self@.dom().finite(),
    {
    }

    /// How many connections the table holds.
    pub fn len(&self) -> (n: usize)
        ensures
            self@.dom().finite(),
            n == self@.len(),
    {
        self.clients.len()
    }

    /// Whether a connection stands in the table.
    pub fn contains(&self, id: ConnectionId) -> (found: bool)
        ensures
            found == self@.contains_key(id),
    {
        self.clients.contains_key(&id)
    }

    /// The state of a connection, if it stands in the table.
    pub fn get(&self, id: ConnectionId) -> (found: Option<&WsClient>)
        ensures
            match found {
                Some(client) => self@.contains_key(id) && *client == self@[id],
                None => !self@.contains_key(id),
            },
    {
        self.clients.get(&id)
    }

    /// Enters a connection under its id. An id that stands in the table
    /// already is refused and the table is left as it was.
    pub fn register(&mut self, id: ConnectionId, client: WsClient) -> (result: Result<
        (),
        RegistryInvariantViolation,
    >)
        ensures
            result is Err <==> old(self)@.contains_key(id),
            final(self)@ == registered(old(self)@, id, client),
            final(self)@.dom().finite(),
    {
        if self.clients.contains_key(&id) {
            return Err(RegistryInvariantViolation);
        }
        self.clients.insert(id, client);
        Ok(())
    }

    /// Takes a connection out of the table. Taking out one that is not
    /// there changes nothing. The result says whether it was there.
    pub fn deregister(&mut self, id: ConnectionId) -> (removed: bool)
        ensures
            removed == old(self)@.contains_key(id),
            final(self)@ == deregistered(old(self)@, id),
            final(self)@.dom().finite(),
    {
        self.clients.remove(&id).is_some()
    }

    /// Attaches an identity to a connection that has none. A connection
    /// that is not in the table, or has an identity already, is left as it
    /// is. The result says whether the identity was attached.
    pub fn authenticate(&mut self, id: ConnectionId, identity: AuthenticatedIdentity) -> (attached:
        bool)
        ensures
            attached == (old(self)@.contains_key(id) && old(self)@[id].user is None),
            final(self)@ == authenticated(old(self)@, id, identity),
            final(self)@.dom().finite(),
    {
        match self.clients.remove(&id) {
            Some(client) => {
                let attached = client.user.is_none();
                let user = if attached {
                    Some(identity)
                } else {
                    client.user
                };
                self.clients.insert(id, WsClient { socket: client.socket, user });
                assert(attached ==> self.clients@ =~= old(self)@.insert(
                    id,
                    WsClient { socket: old(self)@[id].socket, user: Some(identity) },
                ));
                assert(!attached ==> self.clients@ =~= old(self)@);
                attached
            },
            None => {
                assert(self.clients@ =~= old(self)@);
                false
            },
        }
    }

    /// The connections of the table at this moment, each once, in no
    /// particular order.
    pub fn snapshot(&self) -> (recipients: Vec<Recipient<'_>>)
        ensures
            self@.dom().finite(),
            recipients@.len() == self@.len(),
            forall|i: int|
                0 <= i < recipients@.len() ==> self@.contains_key(#[trigger] recipients@[i].id)
                    && *recipients@[i].socket == self@[recipients@[i].id].socket
                    && recipients@[i].user == self@[recipients@[i].id].user,
            forall|i: int, j: int|
                0 <= i < j < recipients@.len() ==> recipients@[i].id != recipients@[j].id,
            forall|id: ConnectionId|
                self@.contains_key(id) ==> exists|i: int|
                    0 <= i < recipients@.len() && #[trigger] recipients@[i].id == id,
    {
        let mut recipients: Vec<Recipient<'_>> = Vec::new();
        let entries = self.clients.iter();
        let ghost all = entries.remaining();
        for entry in it: entries
            invariant
                it.seq() == all,
                recipients@.len() == it.index(),
                forall|i: int|
                    0 <= i < recipients@.len() ==> #[trigger] recipients@[i].id == *all[i].0,
                forall|i: int|
                    0 <= i < recipients@.len() ==> *(#[trigger] recipients@[i]).socket
                        == all[i].1.socket,
                forall|i: int|
                    0 <= i < recipients@.len() ==> (#[trigger] recipients@[i]).user
                        == all[i].1.user,
        {
            let (id, client) = entry;
            recipients.push(Recipient { id: *id, socket: &client.socket, user: client.user });
        }
        proof {
            assert forall|i: int, j: int| 0 <= i < j < recipients@.len() implies recipients@[i].id
                != recipients@[j].id by {
                assert(self.clients@[*all[i].0] == *all[i].1);
                assert(self.clients@[*all[j].0] == *all[j].1);
                if recipients@[i].id == recipients@[j].id {
                    assert(all[i] == all[j]);
                }
            }
            assert forall|id: ConnectionId| self@.contains_key(id) implies exists|i: int|
                0 <= i < recipients@.len() && #[trigger] recipients@[i].id == id by {
                let wanted = (&id, &self.clients@[id]);
                assert(all.contains(wanted));
                let at = choose|at: int| 0 <= at < all.len() && all[at] == wanted;
                assert(recipients@[at].id == id);
            }
            assert forall|i: int| 0 <= i < recipients@.len() implies self@.contains_key(
                #[trigger] recipients@[i].id,
            ) && *recipients@[i].socket == self@[recipients@[i].id].socket && recipients@[i].user
                == self@[recipients@[i].id].user by {
                assert(self.clients@.contains_key(*all[i].0));
                assert(self.clients@[*all[i].0] == *all[i].1);
            }
        }
        recipients
    }
}

/// One connection as a broadcast sees it.
pub struct Recipient<'a> {
    pub id: ConnectionId,
    pub socket: &'a Socket,
    pub user: Option<AuthenticatedIdentity>,
}

} // verus!
