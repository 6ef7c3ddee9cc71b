//! Presence: who is in a room, where everybody is, and whom a broadcast
//! reaches.
//!
//! Every function here reads the registry once and works out, in the order
//! in which the connections arrived, what is owed to whom. Nothing is sent
//! from here.

use crate::protocol::{
    views, Outbound, OutboundView, RoomUser, RoomUserView, VoiceState, VoiceStateView, WsResponse,
    WsResponseView,
};
use crate::registry::{ClientInfo, ClientView, ConnectionRegistry};
use crate::session::{Session, SessionView};
use vstd::prelude::*;

verus! {

/// Whether the connection is in `room`.
pub open spec fn in_room(client: ClientView, room: Seq<char>) -> bool {
    client.session.room() == Some(room)
}

/// `payload`, addressed to `client`.
pub open spec fn addressed(client: ClientView, payload: WsResponseView) -> OutboundView {
    OutboundView { conn_id: client.id, payload }
}

/// What a broadcast to everybody owes to one connection: always the payload.
pub open spec fn everyone(payload: WsResponseView) -> spec_fn(ClientView) -> OutboundView {
    |client: ClientView| addressed(client, payload)
}

/// A broadcast to every registered connection: one copy each, in order of
/// arrival.
pub open spec fn sent_to_all(clients: Seq<ClientView>, payload: WsResponseView) -> Seq<
    OutboundView,
> {
    clients.map_values(everyone(payload))
}

/// Whether a broadcast to `room` that leaves `except_id` out reaches a
/// connection.
pub open spec fn member_of(room: Seq<char>, except_id: u64) -> spec_fn(ClientView) -> bool {
    |client: ClientView| in_room(client, room) && client.id != except_id
}

/// The connections in `room` other than `except_id`, in order of arrival.
pub open spec fn room_members(clients: Seq<ClientView>, room: Seq<char>, except_id: u64) -> Seq<
    ClientView,
> {
    clients.filter(member_of(room, except_id))
}

/// A broadcast to a room: one copy for each connection in `room` other
/// than `except_id`, in order of arrival.
pub open spec fn sent_to_room(
    clients: Seq<ClientView>,
    room: Seq<char>,
    except_id: u64,
    payload: WsResponseView,
) -> Seq<OutboundView> {
    sent_to_all(room_members(clients, room, except_id), payload)
}

/// The roster line of one connection, if it is in `room` and is not the
/// one left out.
pub open spec fn roster_line(room: Seq<char>, except_id: u64) -> spec_fn(ClientView) -> Option<
    RoomUserView,
> {
    |client: ClientView|
        match client.session {
            SessionView::InRoom { identity, room: theirs } => if theirs == room && client.id
                != except_id {
                Some(
                    RoomUserView {
                        id: identity.user_id,
                        name: identity.name,
                        avatar: identity.avatar,
                    },
                )
            } else {
                None
            },
            _ => None,
        }
}

/// The roster of `room` as seen by `except_id`: one line for each other
/// connection in it, in order of arrival.
pub open spec fn roster_of(clients: Seq<ClientView>, room: Seq<char>, except_id: u64) -> Seq<
    RoomUserView,
> {
    clients.filter_map(roster_line(room, except_id))
}

/// Where one connection is, if it is in a room.
pub open spec fn whereabouts() -> spec_fn(ClientView) -> Option<VoiceStateView> {
    |client: ClientView|
        match client.session {
            SessionView::InRoom { identity, room } => Some(
                VoiceStateView {
                    user_id: identity.user_id,
                    name: identity.name,
                    avatar: identity.avatar,
                    room_id: room,
                },
            ),
            _ => None,
        }
}

/// Where everybody is: one entry for each connection that is in a room, in
/// order of arrival.
pub open spec fn voice_states_of(clients: Seq<ClientView>) -> Seq<VoiceStateView> {
    clients.filter_map(whereabouts())
}

/// Whether the identifiers grow along the sequence.
pub open spec fn in_order(clients: Seq<ClientView>) -> bool {
    forall|i: int, j: int| 0 <= i < j < clients.len() ==> clients[i].id < clients[j].id
}

/// A selection from connections in order of arrival holds exactly those
/// that were selected, each once and in the same order.
pub proof fn lemma_selection(clients: Seq<ClientView>, pick: spec_fn(ClientView) -> bool)
    requires
        in_order(clients),
    ensures
        in_order(clients.filter(pick)),
        forall|client: ClientView| #[trigger]
            clients.filter(pick).contains(client) <==> (clients.contains(client) && pick(client)),
    decreases clients.len(),
{
    reveal(Seq::filter);
    let chosen = clients.filter(pick);
    if clients.len() > 0 {
        let front = clients.drop_last();
        lemma_selection(front, pick);
        assert forall|client: ClientView| #[trigger]
            chosen.contains(client) <==> (clients.contains(client) && pick(client)) by {
            if chosen.contains(client) {
                let k = choose|k: int| 0 <= k < chosen.len() && chosen[k] == client;
                if k < front.filter(pick).len() {
                    assert(front.filter(pick).contains(client));
                    let j = choose|j: int| 0 <= j < front.len() && front[j] == client;
                    assert(clients[j] == client);
                } else {
                    assert(clients[clients.len() - 1] == client);
                }
            }
            if clients.contains(client) && pick(client) {
                let j = choose|j: int| 0 <= j < clients.len() && clients[j] == client;
                if j < front.len() {
                    assert(front[j] == client);
                    assert(front.filter(pick).contains(client));
                    let k = choose|k: int|
                        0 <= k < front.filter(pick).len() && front.filter(pick)[k] == client;
                    assert(chosen[k] == client);
                } else {
                    assert(chosen[chosen.len() - 1] == client);
                }
            }
        }
        assert forall|i: int, j: int| 0 <= i < j < chosen.len() implies chosen[i].id
            < chosen[j].id by {
            if j == front.filter(pick).len() {
                assert(front.filter(pick).contains(chosen[i]));
                let k = choose|k: int| 0 <= k < front.len() && front[k] == chosen[i];
                assert(clients[k].id < clients[clients.len() - 1].id);
            }
        }
    }
}

/// Two sequences that differ only where neither connection is selected
/// give the same selection.
pub proof fn lemma_same_selection(
    before: Seq<ClientView>,
    after: Seq<ClientView>,
    pick: spec_fn(ClientView) -> bool,
)
    requires
        before.len() == after.len(),
        forall|i: int|
            0 <= i < before.len() ==> before[i] == after[i] || (!pick(before[i]) && !pick(
                after[i],
            )),
    ensures
        before.filter(pick) == after.filter(pick),
    decreases before.len(),
{
    reveal(Seq::filter);
    if before.len() > 0 {
        lemma_same_selection(before.drop_last(), after.drop_last(), pick);
    }
}

/// The roster has one line for each member of the room, in the same order.
pub proof fn lemma_roster_lines(clients: Seq<ClientView>, room: Seq<char>, except_id: u64)
    ensures
        roster_of(clients, room, except_id).len() == room_members(clients, room, except_id).len(),
        forall|i: int|
            0 <= i < room_members(clients, room, except_id).len() ==> roster_line(room, except_id)(
                #[trigger] room_members(clients, room, except_id)[i],
            ) == Some(roster_of(clients, room, except_id)[i]),
    decreases clients.len(),
{
    reveal(Seq::filter);
    if clients.len() > 0 {
        lemma_roster_lines(clients.drop_last(), room, except_id);
    }
}

/// Whether `client` is in the room `room_id`.
fn is_in_room(client: &ClientInfo, room_id: &String) -> (yes: bool)
    ensures
        yes == in_room(client@, room_id@),
{
    match client.session.room() {
        Some(theirs) => *theirs == *room_id,
        None => false,
    }
}

/// Works out a broadcast of `payload` to every registered connection.
pub fn broadcast_to_all(registry: &ConnectionRegistry, payload: &WsResponse) -> (sends: Vec<
    Outbound,
>)
    ensures
        views(sends@) == sent_to_all(registry@.clients, payload@),
{
    let clients = registry.clients();
    let mut sends: Vec<Outbound> = Vec::new();
    let mut i: usize = 0;
    while i < clients.len()
        invariant
            i <= clients.len(),
            sends.len() == i,
            forall|k: int| 0 <= k < i ==> sends[k]@ == addressed(clients[k]@, payload@),
        decreases clients.len() - i,
    {
        sends.push(Outbound { conn_id: clients[i].id, payload: payload.clone() });
        i += 1;
    }
    sends
}

/// Works out a broadcast of `payload` to every connection in `room_id`
/// but `except_id`.
pub fn broadcast_to_room(
    registry: &ConnectionRegistry,
    room_id: &String,
    except_id: u64,
    payload: &WsResponse,
) -> (sends: Vec<Outbound>)
    ensures
        views(sends@) == sent_to_room(registry@.clients, room_id@, except_id, payload@),
{
    let clients = registry.clients();
    let ghost all = views(clients@);
    let ghost pick = member_of(room_id@, except_id);
    let mut sends: Vec<Outbound> = Vec::new();
    let mut i: usize = 0;
    while i < clients.len()
        invariant
            i <= clients.len(),
            all == views(clients@),
            pick == member_of(room_id@, except_id),
            views(sends@) == sent_to_all(all.take(i as int).filter(pick), payload@),
        decreases clients.len() - i,
    {
        proof {
            all.take(i as int).lemma_filter_push(all[i as int], pick);
            assert(all.take(i + 1) =~= all.take(i as int).push(all[i as int]));
        }
        let ghost before = views(sends@);
        if is_in_room(&clients[i], room_id) && clients[i].id != except_id {
            sends.push(Outbound { conn_id: clients[i].id, payload: payload.clone() });
            assert(views(sends@) =~= before.push(addressed(all[i as int], payload@)));
        }
        i += 1;
    }
    assert(all.take(clients.len() as int) =~= all);
    sends
}

/// The roster of `room_id` as `except_id` sees it.
pub fn room_users(registry: &ConnectionRegistry, room_id: &String, except_id: u64) -> (users: Vec<
    RoomUser,
>)
    ensures
        views(users@) == roster_of(registry@.clients, room_id@, except_id),
{
    let clients = registry.clients();
    let ghost all = views(clients@);
    let ghost pick = roster_line(room_id@, except_id);
    let mut users: Vec<RoomUser> = Vec::new();
    let mut i: usize = 0;
    while i < clients.len()
        invariant
            i <= clients.len(),
            all == views(clients@),
            pick == roster_line(room_id@, except_id),
            views(users@) == all.take(i as int).filter_map(pick),
        decreases clients.len() - i,
    {
        proof {
            all.lemma_filter_map_take_succ(pick, i as int);
        }
        match &clients[i].session {
            Session::InRoom { identity, room } => {
                if *room == *room_id && clients[i].id != except_id {
                    let line = RoomUser {
                        id: identity.user_id.clone(),
                        name: identity.name.clone(),
                        avatar: identity.avatar.clone(),
                    };
                    users.push(line);
                }
            },
            _ => {},
        }
        i += 1;
    }
    assert(all.take(clients.len() as int) =~= all);
    users
}

/// Where everybody is.
pub fn global_voice_state(registry: &ConnectionRegistry) -> (states: Vec<VoiceState>)
    ensures
        views(states@) == voice_states_of(registry@.clients),
{
    let clients = registry.clients();
    let ghost all = views(clients@);
    let ghost pick = whereabouts();
    let mut states: Vec<VoiceState> = Vec::new();
    let mut i: usize = 0;
    while i < clients.len()
        invariant
            i <= clients.len(),
            all == views(clients@),
            pick == whereabouts(),
            views(states@) == all.take(i as int).filter_map(pick),
        decreases clients.len() - i,
    {
        proof {
            all.lemma_filter_map_take_succ(pick, i as int);
        }
        match &clients[i].session {
            Session::InRoom { identity, room } => {
                let state = VoiceState {
                    user_id: identity.user_id.clone(),
                    name: identity.name.clone(),
                    avatar: identity.avatar.clone(),
                    room_id: room.clone(),
                };
                states.push(state);
            },
            _ => {},
        }
        i += 1;
    }
    assert(all.take(clients.len() as int) =~= all);
    states
}

} // verus!
