//! What holds of the relay whatever happens: laws over the state machine
//! of the router, each proved from the definitions the handlers meet.

use crate::ledger::{balance_of, covers, debited, opened};
use crate::model::{
    connected, disconnected, identified, ignored, joined, received, reply, routed, signaled,
    user_joined, voice_update, AppView,
};
use crate::pipeline::{Pipeline, PIPELINE_CAPACITY};
use crate::presence::{
    in_room, lemma_roster_lines, lemma_same_selection, lemma_selection, member_of, room_members,
    roster_line, sent_to_all,
};
use crate::protocol::{InboundView, WsMessageView, WsResponseView};
use crate::registry::{
    lemma_bound, lemma_moved, lemma_registered, lemma_without, ClientView, RegistryView,
};
use crate::relay::{bound_connections, bound_to, callee};
use crate::session::{IdentityView, SessionView};
use vstd::prelude::*;

verus! {

/// Whether the connection `conn_id` is registered and has claimed an
/// identity.
pub open spec fn is_identified(state: AppView, conn_id: u64) -> bool {
    match state.clients.session(conn_id) {
        Some(session) => session.identity() is Some,
        None => false,
    }
}

/// Whether the event is an `Identify` message.
pub open spec fn claims_identity(event: InboundView) -> bool {
    match event {
        InboundView::Message { msg } => msg is Identify,
        _ => false,
    }
}

/// A message changes no connection but its sender, registers or
/// unregisters nobody, and leaves every connection with the pipeline it
/// was registered with. Only `Identify`, `JoinRoom` and `LeaveRoom` change
/// the registry at all; the first gives the sender an identity and the
/// other two leave its identity as it is.
pub proof fn law_message_touches_its_sender_only(
    state: AppView,
    conn_id: u64,
    msg: WsMessageView,
    now: u64,
)
    requires
        state.clients.wf(),
    ensures
        ({
            let next = routed(state, conn_id, msg, now).state.clients;
            &&& next.wf()
            &&& next.next_id == state.clients.next_id
            &&& forall|other: u64|
                other != conn_id ==> #[trigger] next.get(other) == state.clients.get(other)
            &&& next.pipeline(conn_id) == state.clients.pipeline(conn_id)
            &&& !(msg is Identify || msg is JoinRoom || msg is LeaveRoom) ==> next == state.clients
            &&& msg is JoinRoom || msg is LeaveRoom ==> (match (
                next.session(conn_id),
                state.clients.session(conn_id),
            ) {
                (Some(after), Some(before)) => after.identity() == before.identity(),
                _ => true,
            })
            &&& msg is Identify ==> (match next.session(conn_id) {
                Some(after) => after.identity() is Some,
                None => true,
            })
        }),
{
    match msg {
        WsMessageView::Identify { user_id, name, avatar } => {
            lemma_bound(state.clients, conn_id, IdentityView { user_id, name, avatar });
        },
        WsMessageView::JoinRoom { room_id } => {
            lemma_moved(state.clients, conn_id, Some(room_id));
        },
        WsMessageView::LeaveRoom => {
            lemma_moved(state.clients, conn_id, None);
        },
        _ => {},
    }
}

/// Identifiers stay unique: every event leaves the registry well formed,
/// with its connections in order of arrival under distinct identifiers
/// that were all handed out already.
pub proof fn law_registry_stays_well_formed(
    state: AppView,
    tx: Pipeline,
    conn_id: u64,
    event: InboundView,
    now: u64,
)
    requires
        state.clients.wf(),
    ensures
        RegistryView::empty().wf(),
        state.clients.next_id < u64::MAX ==> connected(state, tx).clients.wf(),
        received(state, conn_id, event, now).state.clients.wf(),
{
    if state.clients.next_id < u64::MAX {
        lemma_registered(state.clients, tx);
    }
    if event is Closed {
        lemma_without(state.clients, conn_id);
    }
}

/// Whether every registered connection sends through a pipeline that holds
/// [`PIPELINE_CAPACITY`] payloads.
pub open spec fn pipelines_bounded(registry: RegistryView) -> bool {
    forall|i: int|
        0 <= i < registry.clients.len() ==> #[trigger] registry.clients[i].tx.bound()
            == PIPELINE_CAPACITY
}

/// Every connection keeps a pipeline of the same, fixed capacity: it holds
/// of the empty registry, a connection accepted with such a pipeline keeps
/// it so, and so does every event.
pub proof fn law_pipelines_stay_bounded(
    state: AppView,
    tx: Pipeline,
    conn_id: u64,
    event: InboundView,
    now: u64,
)
    requires
        state.clients.wf(),
        pipelines_bounded(state.clients),
    ensures
        pipelines_bounded(RegistryView::empty()),
        tx.bound() == PIPELINE_CAPACITY ==> pipelines_bounded(connected(state, tx).clients),
        pipelines_bounded(received(state, conn_id, event, now).state.clients),
{
    if event is Closed {
        let before = state.clients.clients;
        let rest = state.clients.without(conn_id).clients;
        lemma_without(state.clients, conn_id);
        assert forall|i: int| 0 <= i < rest.len() implies #[trigger] rest[i].tx.bound()
            == PIPELINE_CAPACITY by {
            // Whoever is left was registered before, with the same pipeline.
            assert(rest.contains(rest[i]));
            let k = choose|k: int| 0 <= k < before.len() && before[k] == rest[i];
            assert(before[k].tx.bound() == PIPELINE_CAPACITY);
        }
    }
}

/// A connection that has claimed an identity and asks to join a room is
/// first of all sent the roster of that room. The roster has one line for
/// each connection that is in the room at that moment, the joiner left
/// out, each once and in order of arrival. Then each of those connections
/// is owed one `UserJoined`, then each registered connection, the joiner
/// among them, is owed one `VoiceStateUpdate` that names the room, and
/// nothing else is owed.
pub proof fn law_join_replies_with_roster(state: AppView, conn_id: u64, room: Seq<char>)
    requires
        state.clients.wf(),
        is_identified(state, conn_id),
    ensures
        ({
            let outcome = joined(state, conn_id, room);
            let identity = state.clients.session(conn_id).unwrap().identity().unwrap();
            let members = room_members(state.clients.clients, room, conn_id);
            let all = outcome.state.clients.clients;
            &&& outcome.sends.len() == 1 + members.len() + all.len()
            &&& outcome.sends[0].conn_id == conn_id
            &&& outcome.sends[0].payload matches WsResponseView::RoomUsers { users }
            &&& users.len() == members.len()
            &&& forall|i: int|
                0 <= i < members.len() ==> roster_line(room, conn_id)(#[trigger] members[i])
                    == Some(users[i])
            &&& forall|client: ClientView| #[trigger]
                members.contains(client) <==> (state.clients.clients.contains(client) && in_room(
                    client,
                    room,
                ) && client.id != conn_id)
            &&& forall|i: int, j: int|
                0 <= i < j < members.len() ==> members[i].id < members[j].id
            &&& forall|i: int|
                0 <= i < members.len() ==> #[trigger] outcome.sends[1 + i] == reply(
                    members[i].id,
                    user_joined(identity),
                )
            &&& forall|i: int|
                0 <= i < all.len() ==> #[trigger] outcome.sends[1 + members.len() + i] == reply(
                    all[i].id,
                    voice_update(identity, Some(room)),
                )
            &&& all.len() == state.clients.clients.len()
            &&& forall|i: int|
                0 <= i < all.len() ==> #[trigger] all[i].id == state.clients.clients[i].id
            &&& outcome.state.clients.session(conn_id) == Some(
                SessionView::InRoom { identity, room },
            )
        }),
{
    let next = state.clients.moved(conn_id, Some(room));
    lemma_roster_lines(state.clients.clients, room, conn_id);
    lemma_selection(state.clients.clients, member_of(room, conn_id));
    lemma_moved(state.clients, conn_id, Some(room));
    lemma_same_selection(state.clients.clients, next.clients, member_of(room, conn_id));
}

/// The same of a connection that identifies and at once joins a room: the
/// roster it is sent tells of the room as the identification left it.
pub proof fn law_identify_then_join(
    state: AppView,
    conn_id: u64,
    identity: IdentityView,
    room: Seq<char>,
)
    requires
        state.clients.wf(),
        state.clients.contains(conn_id),
    ensures
        ({
            let named = identified(state, conn_id, identity).state;
            let outcome = joined(named, conn_id, room);
            let members = room_members(named.clients.clients, room, conn_id);
            &&& named.clients.wf()
            &&& is_identified(named, conn_id)
            &&& outcome.sends.len() >= 1
            &&& outcome.sends[0].conn_id == conn_id
            &&& outcome.sends[0].payload matches WsResponseView::RoomUsers { users }
            &&& users.len() == members.len()
            &&& forall|i: int|
                0 <= i < members.len() ==> roster_line(room, conn_id)(#[trigger] members[i])
                    == Some(users[i])
            &&& forall|client: ClientView| #[trigger]
                members.contains(client) <==> (named.clients.clients.contains(client) && in_room(
                    client,
                    room,
                ) && client.id != conn_id)
            &&& outcome.state.clients.session(conn_id) == Some(
                SessionView::InRoom { identity, room },
            )
        }),
{
    let named = identified(state, conn_id, identity).state;
    lemma_bound(state.clients, conn_id, identity);
    law_join_replies_with_roster(named, conn_id, room);
}

/// A connection that has claimed no identity cannot join or leave a room,
/// post, edit or delete a chat line, or mark a channel as read: each such
/// request leaves the state as it is and nobody hears of it.
pub proof fn law_anonymous_is_ignored(state: AppView, conn_id: u64, msg: WsMessageView, now: u64)
    requires
        !is_identified(state, conn_id),
        msg is JoinRoom || msg is LeaveRoom || msg is ChatMessage || msg is EditMessage
            || msg is DeleteMessage || msg is MessageRead,
    ensures
        routed(state, conn_id, msg, now) == ignored(state),
{
}

/// Only its own `Identify` gives a connection an identity: after any other
/// event, from whatever connection, a connection without an identity
/// still has none.
pub proof fn law_anonymous_until_identify(
    state: AppView,
    conn_id: u64,
    sender: u64,
    event: InboundView,
    now: u64,
)
    requires
        state.clients.wf(),
        !is_identified(state, conn_id),
        !(sender == conn_id && claims_identity(event)),
    ensures
        !is_identified(received(state, sender, event, now).state, conn_id),
{
    if event is Closed {
        lemma_without(state.clients, sender);
    }
}

/// An identity, once claimed, is never lost: after any event but the end
/// of its own stream, an identified connection is still registered and
/// identified.
pub proof fn law_identity_is_kept(
    state: AppView,
    conn_id: u64,
    sender: u64,
    event: InboundView,
    now: u64,
)
    requires
        state.clients.wf(),
        is_identified(state, conn_id),
        !(sender == conn_id && event is Closed),
    ensures
        is_identified(received(state, sender, event, now).state, conn_id),
{
    match event {
        InboundView::Message { msg } => {
            law_message_touches_its_sender_only(state, sender, msg, now);
        },
        InboundView::Closed => {
            lemma_without(state.clients, sender);
        },
        _ => {},
    }
}

/// A balance has nothing to do with connections: only `Identify`, which
/// may enter one, and `MarketPurchase` touch the ledger. Whoever connects,
/// disconnects, or sends anything else leaves every balance as it was.
pub proof fn law_balances_outlive_connections(
    state: AppView,
    tx: Pipeline,
    conn_id: u64,
    event: InboundView,
    now: u64,
)
    ensures
        connected(state, tx).balances == state.balances,
        !(event matches InboundView::Message { msg } && (msg is Identify || msg is MarketPurchase))
            ==> received(state, conn_id, event, now).state.balances == state.balances,
        event matches InboundView::Message { msg } ==> (msg matches WsMessageView::Identify {
            user_id,
            ..
        } ==> received(state, conn_id, event, now).state.balances == opened(
            state.balances,
            user_id,
        )),
{
}

/// Call signaling reaches every connection that is bound to the user it
/// names, each once and in order of arrival, and no other connection. The
/// registry stays as it was.
pub proof fn law_signal_reaches_every_binding(
    state: AppView,
    target: Seq<char>,
    payload: WsResponseView,
)
    requires
        state.clients.wf(),
    ensures
        ({
            let outcome = signaled(state, target, payload);
            let callees = bound_connections(state.clients.clients, target);
            &&& outcome.state == state
            &&& outcome.sends.len() == callees.len()
            &&& forall|i: int|
                0 <= i < callees.len() ==> #[trigger] outcome.sends[i] == reply(
                    callees[i].id,
                    payload,
                )
            &&& forall|client: ClientView| #[trigger]
                callees.contains(client) <==> (state.clients.clients.contains(client) && bound_to(
                    client,
                    target,
                ))
            &&& forall|i: int, j: int| 0 <= i < j < callees.len() ==> callees[i].id < callees[j].id
        }),
{
    lemma_selection(state.clients.clients, callee(target));
}

/// A debit is one step. Of two purchases that the balance covers one by
/// one but not together, the one applied first succeeds and the other is
/// refused, in whichever order they come.
pub proof fn law_one_of_two_purchases(
    balances: Map<Seq<char>, u64>,
    user: Seq<char>,
    first: u64,
    second: u64,
)
    requires
        first <= balance_of(balances, user),
        second <= balance_of(balances, user),
        first + second > balance_of(balances, user),
    ensures
        covers(balances, user, first),
        !covers(debited(balances, user, first), user, second),
        covers(balances, user, second),
        !covers(debited(balances, user, second), user, first),
        balance_of(debited(debited(balances, user, first), user, second), user) == balance_of(
            balances,
            user,
        ) - first,
{
}

/// When a connection that is in a room goes away, each connection that
/// stays in that room is owed one `UserLeft`, then each connection that is
/// still registered is owed one `VoiceStateUpdate` without a room, and
/// nothing else is owed. The connection is in the registry no more, so no
/// roster and no broadcast will name it.
pub proof fn law_disconnect_announces_once(
    state: AppView,
    conn_id: u64,
    identity: IdentityView,
    room: Seq<char>,
)
    requires
        state.clients.wf(),
        state.clients.session(conn_id) == Some(SessionView::InRoom { identity, room }),
    ensures
        ({
            let outcome = disconnected(state, conn_id);
            let rest = outcome.state.clients.clients;
            let mates = room_members(rest, room, conn_id);
            let gone = WsResponseView::UserLeft { user_id: identity.user_id };
            &&& outcome.state.clients.wf()
            &&& outcome.state.balances == state.balances
            &&& outcome.state.clients.session(conn_id) is None
            &&& forall|client: ClientView| #[trigger]
                rest.contains(client) <==> (state.clients.clients.contains(client) && client.id
                    != conn_id)
            &&& forall|client: ClientView| #[trigger]
                mates.contains(client) <==> (rest.contains(client) && in_room(client, room))
            &&& outcome.sends.len() == mates.len() + rest.len()
            &&& forall|i: int|
                0 <= i < mates.len() ==> #[trigger] outcome.sends[i] == reply(mates[i].id, gone)
            &&& forall|i: int|
                0 <= i < rest.len() ==> #[trigger] outcome.sends[mates.len() + i] == reply(
                    rest[i].id,
                    voice_update(identity, None),
                )
            &&& forall|i: int, j: int| 0 <= i < j < mates.len() ==> mates[i].id < mates[j].id
            &&& forall|i: int, j: int| 0 <= i < j < rest.len() ==> rest[i].id < rest[j].id
        }),
{
    lemma_without(state.clients, conn_id);
    let rest = state.clients.without(conn_id).clients;
    lemma_selection(rest, member_of(room, conn_id));
}

/// The end of a connection takes effect once: a second call for the same
/// connection changes nothing and owes nothing.
pub proof fn law_disconnect_twice(state: AppView, conn_id: u64)
    requires
        state.clients.wf(),
    ensures
        disconnected(disconnected(state, conn_id).state, conn_id) == ignored(
            disconnected(state, conn_id).state,
        ),
{
    let once = state.clients.without(conn_id);
    crate::registry::lemma_without_keeps(once, conn_id);
}

/// An identifier is never handed out twice: one that was handed out and is
/// not registered stays unregistered whatever happens next, so a
/// connection that went away is in no later roster or broadcast.
pub proof fn law_gone_for_good(
    state: AppView,
    gone: u64,
    tx: Pipeline,
    conn_id: u64,
    event: InboundView,
    now: u64,
)
    requires
        state.clients.wf(),
        gone < state.clients.next_id,
        !state.clients.contains(gone),
    ensures
        ({
            let next = received(state, conn_id, event, now).state.clients;
            !next.contains(gone) && gone < next.next_id
        }),
        state.clients.next_id < u64::MAX ==> ({
            let next = connected(state, tx).clients;
            !next.contains(gone) && gone < next.next_id
        }),
{
    if state.clients.next_id < u64::MAX {
        lemma_registered(state.clients, tx);
    }
    if event is Closed {
        lemma_without(state.clients, conn_id);
        assert(disconnected(state, conn_id).state.clients.get(gone) is None);
    }
}

/// A connection that is in a room and identifies again stays in that room
/// under its new identity.
pub proof fn law_reidentify_keeps_room(
    state: AppView,
    conn_id: u64,
    earlier: IdentityView,
    room: Seq<char>,
    identity: IdentityView,
)
    requires
        state.clients.wf(),
        state.clients.session(conn_id) == Some(SessionView::InRoom { identity: earlier, room }),
    ensures
        identified(state, conn_id, identity).state.clients.session(conn_id) == Some(
            SessionView::InRoom { identity, room },
        ),
{
    lemma_bound(state.clients, conn_id, identity);
}

/// A broadcast to a selection of the registry reaches registered
/// connections only.
proof fn lemma_selection_reaches_registered(
    registry: RegistryView,
    pick: spec_fn(ClientView) -> bool,
    payload: WsResponseView,
)
    requires
        registry.wf(),
    ensures
        forall|i: int|
            0 <= i < registry.clients.filter(pick).len() ==> registry.contains(
                #[trigger] sent_to_all(registry.clients.filter(pick), payload)[i].conn_id,
            ),
{
    let chosen = registry.clients.filter(pick);
    lemma_selection(registry.clients, pick);
    assert forall|i: int| 0 <= i < chosen.len() implies registry.clients.contains(chosen[i]) by {
        assert(chosen.contains(chosen[i]));
    }
}

/// Nothing is owed to a connection that is not registered: every payload
/// that an event owes is addressed to a connection that is registered once
/// the event is handled. The one exception is the answer to a frame that
/// could not be understood, which goes to its sender whether registered or
/// not.
pub proof fn law_sends_are_routable(state: AppView, conn_id: u64, event: InboundView, now: u64)
    requires
        state.clients.wf(),
        event is Malformed ==> state.clients.contains(conn_id),
    ensures
        ({
            let outcome = received(state, conn_id, event, now);
            forall|i: int|
                0 <= i < outcome.sends.len() ==> outcome.state.clients.contains(
                    #[trigger] outcome.sends[i].conn_id,
                )
        }),
{
    let outcome = received(state, conn_id, event, now);
    let next = outcome.state.clients;
    match event {
        InboundView::Message { msg } => {
            law_message_touches_its_sender_only(state, conn_id, msg, now);
        },
        InboundView::Closed => {
            lemma_without(state.clients, conn_id);
        },
        _ => {},
    }
    assert forall|pick: spec_fn(ClientView) -> bool, payload: WsResponseView, i: int|
        0 <= i < next.clients.filter(pick).len() implies next.contains(
        #[trigger] sent_to_all(next.clients.filter(pick), payload)[i].conn_id,
    ) by {
        lemma_selection_reaches_registered(next, pick, payload);
    }
}

} // verus!
