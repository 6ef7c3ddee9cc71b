//! Call signaling: forwarding a negotiation payload to whoever is bound to
//! the user it names.
//!
//! The relay keeps no state of its own. A user identifier may be bound to
//! several connections, or to none: each bound connection gets a copy.

use crate::presence::{addressed, sent_to_all};
use crate::protocol::{views, Outbound, OutboundView, WsResponse, WsResponseView};
use crate::registry::{ClientInfo, ClientView, ConnectionRegistry};
use vstd::prelude::*;

verus! {

/// Whether the connection is bound to the user `user_id`.
pub open spec fn bound_to(client: ClientView, user_id: Seq<char>) -> bool {
    match client.session.identity() {
        Some(identity) => identity.user_id == user_id,
        None => false,
    }
}

/// Whether a payload for the user `user_id` reaches a connection.
pub open spec fn callee(user_id: Seq<char>) -> spec_fn(ClientView) -> bool {
    |client: ClientView| bound_to(client, user_id)
}

/// The connections bound to the user `user_id`, in order of arrival.
pub open spec fn bound_connections(clients: Seq<ClientView>, user_id: Seq<char>) -> Seq<
    ClientView,
> {
    clients.filter(callee(user_id))
}

/// A payload for a user: one copy for each connection bound to `user_id`,
/// in order of arrival.
pub open spec fn sent_to_user(
    clients: Seq<ClientView>,
    user_id: Seq<char>,
    payload: WsResponseView,
) -> Seq<OutboundView> {
    sent_to_all(bound_connections(clients, user_id), payload)
}

/// Whether `client` is bound to the user `user_id`.
fn is_bound_to(client: &ClientInfo, user_id: &String) -> (yes: bool)
    ensures
        yes == bound_to(client@, user_id@),
{
    match client.session.identity() {
        Some(identity) => identity.user_id == *user_id,
        None => false,
    }
}

/// Works out whom a payload addressed to the user `target` reaches. The
/// sender hears nothing back, also when nobody is bound to `target`.
pub fn forward(registry: &ConnectionRegistry, target: &String, payload: &WsResponse) -> (sends:
    Vec<Outbound>)
    ensures
        views(sends@) == sent_to_user(registry@.clients, target@, payload@),
{
    let clients = registry.clients();
    let ghost all = views(clients@);
    let ghost pick = callee(target@);
    let mut sends: Vec<Outbound> = Vec::new();
    let mut i: usize = 0;
    while i < clients.len()
        invariant
            i <= clients.len(),
            all == views(clients@),
            pick == callee(target@),
            views(sends@) == sent_to_all(all.take(i as int).filter(pick), payload@),
        decreases clients.len() - i,
    {
        proof {
            all.take(i as int).lemma_filter_push(all[i as int], pick);
            assert(all.take(i + 1) =~= all.take(i as int).push(all[i as int]));
        }
        let ghost before = views(sends@);
        if is_bound_to(&clients[i], target) {
            sends.push(Outbound { conn_id: clients[i].id, payload: payload.clone() });
            assert(views(sends@) =~= before.push(addressed(all[i as int], payload@)));
        }
        i += 1;
    }
    assert(all.take(clients.len() as int) =~= all);
    sends
}

} // verus!
