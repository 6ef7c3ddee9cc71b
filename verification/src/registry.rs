//! The connection registry: every live connection, by identifier.
//!
//! Identifiers are handed out in increasing order and never again, so the
//! registry keeps its connections in the order in which they arrived and
//! finds one by bisection.

use crate::pipeline::Pipeline;
use crate::protocol::{text_opt, views};
use crate::session::{Identity, IdentityView, Session, SessionView};
use vstd::prelude::*;

verus! {

/// One live connection: its identifier, the producer's end of its outbound
/// pipeline, and what it has claimed so far.
#[derive(Debug)]
pub struct ClientInfo {
    pub id: u64,
    pub tx: Pipeline,
    pub session: Session,
}

/// A connection as the relay's rules see it. The pipeline is carried
/// along as it is: it plays no part in any decision, and stays with the
/// connection for as long as the connection is registered.
pub struct ClientView {
    pub id: u64,
    pub tx: Pipeline,
    pub session: SessionView,
}

impl View for ClientInfo {
    type V = ClientView;

    open spec fn view(&self) -> ClientView {
        ClientView { id: self.id, tx: self.tx, session: self.session@ }
    }
}

/// The registry as a value: the connections in order of arrival, and the
/// identifier that the next one will get.
pub struct RegistryView {
    pub clients: Seq<ClientView>,
    pub next_id: u64,
}

impl RegistryView {
    /// Identifiers grow along the sequence and all lie below `next_id`.
    pub open spec fn wf(self) -> bool {
        &&& forall|i: int, j: int|
            0 <= i < j < self.clients.len() ==> self.clients[i].id < self.clients[j].id
        &&& forall|i: int| 0 <= i < self.clients.len() ==> self.clients[i].id < self.next_id
    }

    /// Whether a connection with this identifier is registered.
    pub open spec fn contains(self, id: u64) -> bool {
        exists|i: int| 0 <= i < self.clients.len() && #[trigger] self.clients[i].id == id
    }

    /// Where the connection `id` stands, if it is registered.
    pub open spec fn index_of(self, id: u64) -> int {
        choose|i: int| 0 <= i < self.clients.len() && #[trigger] self.clients[i].id == id
    }

    /// The connection `id`, if it is registered.
    pub open spec fn get(self, id: u64) -> Option<ClientView> {
        if self.contains(id) {
            Some(self.clients[self.index_of(id)])
        } else {
            None
        }
    }

    /// The session of the connection `id`, if it is registered.
    pub open spec fn session(self, id: u64) -> Option<SessionView> {
        match self.get(id) {
            Some(client) => Some(client.session),
            None => None,
        }
    }

    /// The pipeline of the connection `id`, if it is registered.
    pub open spec fn pipeline(self, id: u64) -> Option<Pipeline> {
        match self.get(id) {
            Some(client) => Some(client.tx),
            None => None,
        }
    }

    /// The registry without any connection, whose first will be `first_id`.
    pub open spec fn starting_at(first_id: u64) -> RegistryView {
        RegistryView { clients: Seq::empty(), next_id: first_id }
    }

    /// The registry without any connection, whose first will be number one.
    pub open spec fn empty() -> RegistryView {
        RegistryView::starting_at(1)
    }

    /// The registry after a new, anonymous connection that sends through
    /// `tx` took `next_id`.
    pub open spec fn registered(self, tx: Pipeline) -> RegistryView {
        RegistryView {
            clients: self.clients.push(
                ClientView { id: self.next_id, tx, session: SessionView::Anonymous },
            ),
            next_id: (self.next_id + 1) as u64,
        }
    }

    /// The registry after the connection `id` claimed `identity`. Nothing
    /// changes if `id` is not registered.
    pub open spec fn bound(self, id: u64, identity: IdentityView) -> RegistryView {
        RegistryView {
            clients: self.clients.map_values(
                |c: ClientView|
                    if c.id == id {
                        ClientView { id: c.id, tx: c.tx, session: c.session.rebound(identity) }
                    } else {
                        c
                    },
            ),
            next_id: self.next_id,
        }
    }

    /// The registry after the room of the connection `id` was set to `room`.
    /// Nothing changes if `id` is not registered or is anonymous.
    pub open spec fn moved(self, id: u64, room: Option<Seq<char>>) -> RegistryView {
        RegistryView {
            clients: self.clients.map_values(
                |c: ClientView|
                    if c.id == id {
                        ClientView { id: c.id, tx: c.tx, session: c.session.moved(room) }
                    } else {
                        c
                    },
            ),
            next_id: self.next_id,
        }
    }

    /// The registry after the connection `id` left it. Nothing changes if
    /// `id` is not registered.
    pub open spec fn without(self, id: u64) -> RegistryView {
        RegistryView {
            clients: self.clients.filter(|c: ClientView| c.id != id),
            next_id: self.next_id,
        }
    }
}

/// In a well-formed registry an identifier stands at one index only.
pub proof fn lemma_index_of(registry: RegistryView, i: int)
    requires
        registry.wf(),
        0 <= i < registry.clients.len(),
    ensures
        registry.contains(registry.clients[i].id),
        registry.index_of(registry.clients[i].id) == i,
        registry.get(registry.clients[i].id) == Some(registry.clients[i]),
{
    let k = registry.index_of(registry.clients[i].id);
    assert(k == i) by {
        if k < i {
        } else if i < k {
        }
    }
}

/// Filtering one identifier out of a well-formed registry removes the
/// connection that stands at its index.
pub proof fn lemma_without_removes(registry: RegistryView, i: int)
    requires
        registry.wf(),
        0 <= i < registry.clients.len(),
    ensures
        registry.without(registry.clients[i].id).clients == registry.clients.remove(i),
    decreases registry.clients.len(),
{
    let id = registry.clients[i].id;
    let front = RegistryView { clients: registry.clients.drop_last(), next_id: registry.next_id };
    reveal(Seq::filter);
    if i == registry.clients.len() - 1 {
        lemma_without_keeps(front, id);
    } else {
        lemma_without_removes(front, i);
    }
}

/// Filtering out an identifier that is not registered changes nothing.
pub proof fn lemma_without_keeps(registry: RegistryView, id: u64)
    requires
        !registry.contains(id),
    ensures
        registry.without(id) == registry,
    decreases registry.clients.len(),
{
    let clients = registry.clients;
    reveal(Seq::filter);
    if clients.len() > 0 {
        let front = RegistryView { clients: clients.drop_last(), next_id: registry.next_id };
        lemma_without_keeps(front, id);
        assert(front.clients.push(clients.last()) =~= clients);
    }
}

/// What the registry holds after a connection was registered.
pub proof fn lemma_registered(registry: RegistryView, tx: Pipeline)
    requires
        registry.wf(),
        registry.next_id < u64::MAX,
    ensures
        registry.registered(tx).wf(),
        !registry.contains(registry.next_id),
        forall|other: u64| #[trigger]
            registry.registered(tx).get(other) == (if other == registry.next_id {
                Some(ClientView { id: other, tx, session: SessionView::Anonymous })
            } else {
                registry.get(other)
            }),
{
    let after = registry.registered(tx);
    assert forall|other: u64| #[trigger] after.get(other) == (if other == registry.next_id {
        Some(ClientView { id: other, tx, session: SessionView::Anonymous })
    } else {
        registry.get(other)
    }) by {
        if other == registry.next_id {
            lemma_index_of(after, registry.clients.len() as int);
        } else if registry.contains(other) {
            // The connection stands where it stood.
            assert(after.clients[registry.index_of(other)].id == other);
        } else if after.contains(other) {
            // It would have stood at the same index before.
            assert(registry.clients[after.index_of(other)].id == other);
        }
    }
}

/// What the registry holds after `bound` or `moved`, which apply `change`
/// to the session of the connection `id` and to no other.
proof fn lemma_changed(
    registry: RegistryView,
    after: RegistryView,
    id: u64,
    change: spec_fn(SessionView) -> SessionView,
)
    requires
        registry.wf(),
        after.next_id == registry.next_id,
        after.clients.len() == registry.clients.len(),
        forall|i: int|
            0 <= i < registry.clients.len() ==> after.clients[i] == (if registry.clients[i].id
                == id {
                ClientView {
                    id,
                    tx: registry.clients[i].tx,
                    session: change(registry.clients[i].session),
                }
            } else {
                registry.clients[i]
            }),
    ensures
        after.wf(),
        forall|other: u64| #[trigger]
            after.get(other) == (if other == id {
                match registry.get(id) {
                    Some(client) => Some(
                        ClientView { id, tx: client.tx, session: change(client.session) },
                    ),
                    None => None,
                }
            } else {
                registry.get(other)
            }),
{
    assert forall|i: int| 0 <= i < registry.clients.len() implies after.clients[i].id
        == registry.clients[i].id by {}
}

/// What the registry holds after a connection claimed an identity.
pub proof fn lemma_bound(registry: RegistryView, id: u64, identity: IdentityView)
    requires
        registry.wf(),
    ensures
        registry.bound(id, identity).wf(),
        forall|other: u64| #[trigger]
            registry.bound(id, identity).get(other) == (if other == id {
                match registry.get(id) {
                    Some(client) => Some(
                        ClientView { id, tx: client.tx, session: client.session.rebound(identity) },
                    ),
                    None => None,
                }
            } else {
                registry.get(other)
            }),
{
    lemma_changed(
        registry,
        registry.bound(id, identity),
        id,
        |session: SessionView| session.rebound(identity),
    );
}

/// What the registry holds after the room of a connection was set.
pub proof fn lemma_moved(registry: RegistryView, id: u64, room: Option<Seq<char>>)
    requires
        registry.wf(),
    ensures
        registry.moved(id, room).wf(),
        forall|other: u64| #[trigger]
            registry.moved(id, room).get(other) == (if other == id {
                match registry.get(id) {
                    Some(client) => Some(
                        ClientView { id, tx: client.tx, session: client.session.moved(room) },
                    ),
                    None => None,
                }
            } else {
                registry.get(other)
            }),
{
    lemma_changed(
        registry,
        registry.moved(id, room),
        id,
        |session: SessionView| session.moved(room),
    );
}

/// What the registry holds after a connection left it: the others, as
/// they were and in the same order.
pub proof fn lemma_without(registry: RegistryView, id: u64)
    requires
        registry.wf(),
    ensures
        registry.without(id).wf(),
        forall|other: u64| #[trigger]
            registry.without(id).get(other) == (if other == id {
                None
            } else {
                registry.get(other)
            }),
        forall|client: ClientView| #[trigger]
            registry.without(id).clients.contains(client) <==> (registry.clients.contains(client)
                && client.id != id),
{
    let after = registry.without(id);
    if registry.contains(id) {
        let i = registry.index_of(id);
        lemma_without_removes(registry, i);
        assert forall|other: u64| #[trigger] after.get(other) == (if other == id {
            None
        } else {
            registry.get(other)
        }) by {
            if registry.contains(other) && other != id {
                // The connection moves down by one if it stood behind the one that left.
                let j = registry.index_of(other);
                assert(after.clients[if j < i { j } else { j - 1 }].id == other);
            } else if after.contains(other) {
                // It would have stood at the same index, or one further up, before.
                let k = after.index_of(other);
                assert(registry.clients[if k < i { k } else { k + 1 }].id == other);
            }
        }
    } else {
        lemma_without_keeps(registry, id);
    }
}

/// Every live connection, by identifier.
pub struct ConnectionRegistry {
    clients: Vec<ClientInfo>,
    next_id: u64,
}

impl ConnectionRegistry {
    #[verifier::type_invariant]
    spec fn well_formed(&self) -> bool {
        self@.wf()
    }

    /// The connections in order of arrival and the next identifier.
    pub closed spec fn view(&self) -> RegistryView {
        RegistryView { clients: views(self.clients@), next_id: self.next_id }
    }

    /// An empty registry, whose first connection will be number one.
    pub fn new() -> (registry: Self)
        ensures
            registry@ == RegistryView::empty(),
    {
        ConnectionRegistry::starting_at(1)
    }

    /// An empty registry that hands out identifiers from `first_id` on.
    pub fn starting_at(first_id: u64) -> (registry: Self)
        ensures
            registry@ == RegistryView::starting_at(first_id),
    {
        let registry = ConnectionRegistry { clients: Vec::new(), next_id: first_id };
        assert(registry@.clients =~= Seq::empty());
        registry
    }

    /// The connections in order of arrival.
    pub fn clients(&self) -> (list: &Vec<ClientInfo>)
        ensures
            views(list@) == self@.clients,
            self@.wf(),
    {
        proof {
            use_type_invariant(self);
        }
        &self.clients
    }

    /// Registers an anonymous connection that sends through `tx` and
    /// returns its identifier: the least one never handed out before. Once
    /// the identifiers are used up nothing is registered.
    pub fn register(&mut self, tx: Pipeline) -> (id: Option<u64>)
        ensures
            match id {
                Some(id) => id == old(self)@.next_id && final(self)@ == old(self)@.registered(tx),
                None => old(self)@.next_id == u64::MAX && final(self)@ == old(self)@,
            },
    {
        proof {
            use_type_invariant(&*self);
        }
        if self.next_id == u64::MAX {
            return None;
        }
        let id: u64 = self.next_id;
        let ghost before = self@;
        let mut clients: Vec<ClientInfo> = Vec::new();
        core::mem::swap(&mut self.clients, &mut clients);
        clients.push(ClientInfo { id, tx, session: Session::Anonymous });
        proof {
            assert(views(clients@) =~= before.registered(tx).clients);
        }
        self.next_id = id + 1;
        core::mem::swap(&mut self.clients, &mut clients);
        Some(id)
    }

    /// Where the connection `id` stands, found by bisection.
    fn position(&self, id: u64) -> (found: Option<usize>)
        ensures
            match found {
                Some(i) => i < self.clients.len() && self.clients[i as int].id == id,
                None => !self@.contains(id),
            },
    {
        proof {
            use_type_invariant(self);
        }
        let mut low: usize = 0;
        let mut high: usize = self.clients.len();
        while low < high
            invariant
                low <= high <= self.clients.len(),
                self@.wf(),
                forall|k: int| 0 <= k < low ==> self.clients[k].id < id,
                forall|k: int| high <= k < self.clients.len() ==> self.clients[k].id > id,
            decreases high - low,
        {
            let mid: usize = low + (high - low) / 2;
            let probe: u64 = self.clients[mid].id;
            if probe == id {
                return Some(mid);
            } else if probe < id {
                assert forall|k: int| 0 <= k < mid + 1 implies self.clients[k].id < id by {
                    assert(self@.clients[k].id <= self@.clients[mid as int].id);
                }
                low = mid + 1;
            } else {
                assert forall|k: int| mid <= k < self.clients.len() implies self.clients[k].id
                    > id by {
                    assert(self@.clients[mid as int].id <= self@.clients[k].id);
                }
                high = mid;
            }
        }
        None
    }

    /// The connection `id`, if it is registered.
    pub fn lookup(&self, id: u64) -> (found: Option<&ClientInfo>)
        ensures
            match found {
                Some(client) => self@.get(id) == Some(client@),
                None => self@.get(id) is None,
            },
    {
        proof {
            use_type_invariant(self);
        }
        match self.position(id) {
            Some(i) => {
                proof {
                    lemma_index_of(self@, i as int);
                }
                Some(&self.clients[i])
            },
            None => None,
        }
    }

    /// The pipeline through which the connection `id` is sent its
    /// payloads: the one it was registered with, and no other.
    pub fn pipeline(&self, id: u64) -> (found: Option<&Pipeline>)
        ensures
            match found {
                Some(tx) => self@.pipeline(id) == Some(*tx),
                None => self@.pipeline(id) is None,
            },
    {
        match self.lookup(id) {
            Some(client) => Some(&client.tx),
            None => None,
        }
    }

    /// Binds `identity` to the connection `id`, in place of any earlier
    /// one; its room stays. An unknown `id` is ignored.
    pub fn bind_identity(&mut self, id: u64, identity: Identity)
        ensures
            final(self)@ == old(self)@.bound(id, identity@),
    {
        proof {
            use_type_invariant(&*self);
        }
        let ghost before = self@;
        match self.position(id) {
            Some(i) => {
                let next = self.clients[i].session.rebound(identity);
                let mut clients: Vec<ClientInfo> = Vec::new();
                core::mem::swap(&mut self.clients, &mut clients);
                let ghost held = clients@;
                clients[i].session = next;
                proof {
                    assert forall|k: int| 0 <= k < held.len() && k != i implies clients[k]
                        == held[k] && held[k].id != id by {
                        assert(before.clients[k].id != before.clients[i as int].id);
                    }
                    assert(views(clients@) =~= before.bound(id, identity@).clients);
                }
                core::mem::swap(&mut self.clients, &mut clients);
            },
            None => {
                assert(before.bound(id, identity@).clients =~= before.clients);
            },
        }
    }

    /// Puts the connection `id` into `room`, or into none. An unknown or
    /// anonymous connection is left as it is.
    pub fn set_room(&mut self, id: u64, room: Option<String>)
        ensures
            final(self)@ == old(self)@.moved(id, text_opt(room)),
    {
        proof {
            use_type_invariant(&*self);
        }
        let ghost before = self@;
        match self.position(id) {
            Some(i) => {
                let ghost target = text_opt(room);
                let next = self.clients[i].session.moved(room);
                let mut clients: Vec<ClientInfo> = Vec::new();
                core::mem::swap(&mut self.clients, &mut clients);
                let ghost held = clients@;
                clients[i].session = next;
                proof {
                    assert forall|k: int| 0 <= k < held.len() && k != i implies clients[k]
                        == held[k] && held[k].id != id by {
                        assert(before.clients[k].id != before.clients[i as int].id);
                    }
                    assert(views(clients@) =~= before.moved(id, target).clients);
                }
                core::mem::swap(&mut self.clients, &mut clients);
            },
            None => {
                assert(before.moved(id, text_opt(room)).clients =~= before.clients);
            },
        }
    }

    /// Takes the connection `id` out of the registry and returns it. An
    /// unknown `id` is ignored.
    pub fn unregister(&mut self, id: u64) -> (removed: Option<ClientInfo>)
        ensures
            final(self)@ == old(self)@.without(id),
            match removed {
                Some(client) => old(self)@.get(id) == Some(client@),
                None => old(self)@.get(id) is None,
            },
    {
        proof {
            use_type_invariant(&*self);
        }
        let ghost before = self@;
        match self.position(id) {
            Some(i) => {
                proof {
                    lemma_without_removes(before, i as int);
                }
                let mut clients: Vec<ClientInfo> = Vec::new();
                core::mem::swap(&mut self.clients, &mut clients);
                let client = clients.remove(i);
                proof {
                    assert(views(clients@) =~= before.clients.remove(i as int));
                }
                core::mem::swap(&mut self.clients, &mut clients);
                Some(client)
            },
            None => {
                proof {
                    lemma_without_keeps(before, id);
                }
                None
            },
        }
    }

    /// A copy of every connection's identifier and session, in order of
    /// arrival.
    pub fn snapshot(&self) -> (list: Vec<(u64, Session)>)
        ensures
            list@.len() == self@.clients.len(),
            forall|i: int|
                0 <= i < list@.len() ==> list[i].0 == self@.clients[i].id && list[i].1@
                    == self@.clients[i].session,
    {
        let mut list: Vec<(u64, Session)> = Vec::new();
        let mut i: usize = 0;
        while i < self.clients.len()
            invariant
                i <= self.clients.len(),
                list@.len() == i,
                forall|k: int|
                    0 <= k < i ==> list[k].0 == self.clients[k].id && list[k].1@
                        == self.clients[k].session@,
            decreases self.clients.len() - i,
        {
            list.push((self.clients[i].id, self.clients[i].session.clone()));
            i += 1;
        }
        list
    }
}

} // verus!
