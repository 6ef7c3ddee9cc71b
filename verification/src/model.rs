//! The relay as a state machine: what each event makes of the state and
//! what it owes to whom.
//!
//! The functions here are the definition that the router meets. They
//! work on views: strings are sequences of characters, and the pipeline
//! of a connection is a value that is carried along and never looked
//! into.

use crate::ledger::{covers, debited, opened};
use crate::pipeline::Pipeline;
use crate::presence::{roster_of, sent_to_all, sent_to_room, voice_states_of};
use crate::protocol::{InboundView, OutboundView, WsMessageView, WsResponseView};
use crate::registry::RegistryView;
use crate::relay::sent_to_user;
use crate::session::{IdentityView, SessionView};
use vstd::prelude::*;

verus! {

/// Everything the relay remembers: who is connected, and what each user
/// holds.
pub struct AppView {
    pub clients: RegistryView,
    pub balances: Map<Seq<char>, u64>,
}

/// The outcome of one event: the state after it, and the payloads owed, in
/// the order in which they are to be enqueued.
pub struct Routed {
    pub state: AppView,
    pub sends: Seq<OutboundView>,
}

/// An event that is ignored: the state stays and nobody hears of it.
pub open spec fn ignored(state: AppView) -> Routed {
    Routed { state, sends: Seq::empty() }
}

/// One payload, owed to the connection `conn_id`.
pub open spec fn reply(conn_id: u64, payload: WsResponseView) -> OutboundView {
    OutboundView { conn_id, payload }
}

/// The news that the user behind `identity` is now in `room`, or in none.
pub open spec fn voice_update(identity: IdentityView, room: Option<Seq<char>>) -> WsResponseView {
    WsResponseView::VoiceStateUpdate {
        user_id: identity.user_id,
        name: identity.name,
        avatar: identity.avatar,
        room_id: room,
    }
}

/// The news that the user behind `identity` entered the receiver's room.
pub open spec fn user_joined(identity: IdentityView) -> WsResponseView {
    WsResponseView::UserJoined {
        user_id: identity.user_id,
        name: identity.name,
        avatar: identity.avatar,
    }
}

/// `Identify`: the claim is bound to the connection, whatever it claimed
/// before, and its room stays. The connection is told so and is sent
/// where everybody is. The user gets a balance if it had none, also when
/// the connection is no longer registered.
pub open spec fn identified(state: AppView, conn_id: u64, identity: IdentityView) -> Routed {
    let clients = state.clients.bound(conn_id, identity);
    Routed {
        state: AppView { clients, balances: opened(state.balances, identity.user_id) },
        sends: if state.clients.contains(conn_id) {
            seq![
                reply(conn_id, WsResponseView::Identified { success: true }),
                reply(
                    conn_id,
                    WsResponseView::GlobalVoiceState { states: voice_states_of(clients.clients) },
                ),
            ]
        } else {
            Seq::empty()
        },
    }
}

/// `JoinRoom`: an identified connection enters `room`, whatever room it
/// was in. It is sent the roster of the room without itself; the others in
/// the room hear that it joined, and everybody hears where it is now. An
/// anonymous or unknown connection is ignored.
pub open spec fn joined(state: AppView, conn_id: u64, room: Seq<char>) -> Routed {
    match state.clients.session(conn_id) {
        Some(session) => match session.identity() {
            Some(identity) => {
                let clients = state.clients.moved(conn_id, Some(room));
                Routed {
                    state: AppView { clients, balances: state.balances },
                    sends: seq![
                        reply(
                            conn_id,
                            WsResponseView::RoomUsers {
                                users: roster_of(state.clients.clients, room, conn_id),
                            },
                        ),
                    ] + sent_to_room(clients.clients, room, conn_id, user_joined(identity))
                        + sent_to_all(clients.clients, voice_update(identity, Some(room))),
                }
            },
            None => ignored(state),
        },
        None => ignored(state),
    }
}

/// `LeaveRoom`: a connection that is in a room leaves it. Those who stay
/// hear that it left, and everybody hears that it is in no room. A
/// connection that is in no room is ignored.
pub open spec fn left(state: AppView, conn_id: u64) -> Routed {
    match state.clients.session(conn_id) {
        Some(SessionView::InRoom { identity, room }) => {
            let clients = state.clients.moved(conn_id, None);
            Routed {
                state: AppView { clients, balances: state.balances },
                sends: sent_to_room(
                    clients.clients,
                    room,
                    conn_id,
                    WsResponseView::UserLeft { user_id: identity.user_id },
                ) + sent_to_all(clients.clients, voice_update(identity, None)),
            }
        },
        _ => ignored(state),
    }
}

/// What everybody is sent when the connection `conn_id`, which must be in
/// a room, asks for it: `payload` tells it from the sender's identity and
/// room. A connection that is in no room is ignored.
pub open spec fn announced(
    state: AppView,
    conn_id: u64,
    payload: spec_fn(IdentityView, Seq<char>) -> WsResponseView,
) -> Routed {
    match state.clients.session(conn_id) {
        Some(SessionView::InRoom { identity, room }) => Routed {
            state,
            sends: sent_to_all(state.clients.clients, payload(identity, room)),
        },
        _ => ignored(state),
    }
}

/// `ChatMessage`: a line from a connection that is in a room goes to every
/// connection, in whatever room, stamped with `now` and with the sender's
/// room as its channel.
pub open spec fn chatted(state: AppView, conn_id: u64, text: Seq<char>, now: u64) -> Routed {
    announced(
        state,
        conn_id,
        |identity: IdentityView, room: Seq<char>|
            WsResponseView::ChatMessage {
                user_id: identity.user_id,
                name: identity.name,
                avatar: identity.avatar,
                text,
                timestamp: now,
                channel_id: room,
            },
    )
}

/// `EditMessage`: the edit goes to every connection, with the sender's
/// room as its channel.
pub open spec fn edited(
    state: AppView,
    conn_id: u64,
    message_id: Seq<char>,
    new_text: Seq<char>,
) -> Routed {
    announced(
        state,
        conn_id,
        |identity: IdentityView, room: Seq<char>|
            WsResponseView::MessageEdited { message_id, new_text, channel_id: room },
    )
}

/// `DeleteMessage`: the deletion goes to every connection, with the
/// sender's room as its channel.
pub open spec fn deleted(state: AppView, conn_id: u64, message_id: Seq<char>) -> Routed {
    announced(
        state,
        conn_id,
        |identity: IdentityView, room: Seq<char>|
            WsResponseView::MessageDeleted { message_id, channel_id: room },
    )
}

/// `MessageRead`: the receipt of an identified connection goes to every
/// connection. An anonymous or unknown connection is ignored.
pub open spec fn read(
    state: AppView,
    conn_id: u64,
    channel_id: Seq<char>,
    timestamp: u64,
) -> Routed {
    match state.clients.session(conn_id) {
        Some(session) => match session.identity() {
            Some(identity) => Routed {
                state,
                sends: sent_to_all(
                    state.clients.clients,
                    WsResponseView::MessageRead {
                        user_id: identity.user_id,
                        channel_id,
                        timestamp,
                    },
                ),
            },
            None => ignored(state),
        },
        None => ignored(state),
    }
}

/// `Offer`, `Answer`, `IceCandidate`: the payload, without its target,
/// goes to every connection bound to the user `target`. Anyone may send
/// one, and nobody is told if it reached no one.
pub open spec fn signaled(state: AppView, target: Seq<char>, payload: WsResponseView) -> Routed {
    Routed { state, sends: sent_to_user(state.clients.clients, target, payload) }
}

/// What a buyer is told after a purchase of `item_id`.
pub open spec fn purchase_message(success: bool, item_id: Seq<char>) -> Seq<char> {
    if success {
        "Successfully purchased item: "@ + item_id
    } else {
        "Insufficient balance"@
    }
}

/// `MarketPurchase`: `price` is taken from the balance of the user that
/// the request names, if that balance covers it. Only the requesting
/// connection is told the outcome, and the ledger changes also when that
/// connection is no longer registered.
pub open spec fn purchased(
    state: AppView,
    conn_id: u64,
    user_id: Seq<char>,
    item_id: Seq<char>,
    price: u64,
) -> Routed {
    let balances = debited(state.balances, user_id, price);
    let success = covers(state.balances, user_id, price);
    Routed {
        state: AppView { clients: state.clients, balances },
        sends: if state.clients.contains(conn_id) {
            seq![
                reply(
                    conn_id,
                    WsResponseView::PurchaseResult {
                        success,
                        new_balance: balances[user_id],
                        message: purchase_message(success, item_id),
                    },
                ),
            ]
        } else {
            Seq::empty()
        },
    }
}

/// What the message `msg`, read from the connection `conn_id` at the time
/// `now` (in milliseconds), does to the relay.
pub open spec fn routed(state: AppView, conn_id: u64, msg: WsMessageView, now: u64) -> Routed {
    match msg {
        WsMessageView::Identify { user_id, name, avatar } => identified(
            state,
            conn_id,
            IdentityView { user_id, name, avatar },
        ),
        WsMessageView::JoinRoom { room_id } => joined(state, conn_id, room_id),
        WsMessageView::LeaveRoom => left(state, conn_id),
        WsMessageView::ChatMessage { text } => chatted(state, conn_id, text, now),
        WsMessageView::Offer { target, sdp, sender } => signaled(
            state,
            target,
            WsResponseView::Offer { sender, sdp },
        ),
        WsMessageView::Answer { target, sdp, sender } => signaled(
            state,
            target,
            WsResponseView::Answer { sender, sdp },
        ),
        WsMessageView::IceCandidate { target, candidate, sender } => signaled(
            state,
            target,
            WsResponseView::IceCandidate { sender, candidate },
        ),
        WsMessageView::MarketPurchase { user_id, item_id, price } => purchased(
            state,
            conn_id,
            user_id,
            item_id,
            price,
        ),
        WsMessageView::EditMessage { message_id, new_text } => edited(
            state,
            conn_id,
            message_id,
            new_text,
        ),
        WsMessageView::DeleteMessage { message_id } => deleted(state, conn_id, message_id),
        WsMessageView::MessageRead { channel_id, timestamp } => read(
            state,
            conn_id,
            channel_id,
            timestamp,
        ),
    }
}

/// The end of the connection `conn_id`: it leaves the registry. If it was
/// in a room, those who stay in it hear that it left and everybody who is
/// still connected hears that it is in no room. An unknown connection is
/// ignored, so a second call for the same connection does nothing.
pub open spec fn disconnected(state: AppView, conn_id: u64) -> Routed {
    let clients = state.clients.without(conn_id);
    Routed {
        state: AppView { clients, balances: state.balances },
        sends: match state.clients.session(conn_id) {
            Some(SessionView::InRoom { identity, room }) => sent_to_room(
                clients.clients,
                room,
                conn_id,
                WsResponseView::UserLeft { user_id: identity.user_id },
            ) + sent_to_all(clients.clients, voice_update(identity, None)),
            _ => Seq::empty(),
        },
    }
}

/// What a connection is told when a frame of its own could not be
/// understood. Nobody else hears of it and the connection stays.
pub open spec fn malformed(conn_id: u64) -> OutboundView {
    reply(conn_id, WsResponseView::Error { message: "Invalid message payload"@ })
}

/// What the event `event`, read from the connection `conn_id` at the time
/// `now`, does to the relay. A message is routed; a frame that could not
/// be understood is answered to its sender alone; a frame without text is
/// passed over. Each of these leaves the connection open. The end of the
/// stream disconnects it.
pub open spec fn received(state: AppView, conn_id: u64, event: InboundView, now: u64) -> Routed {
    match event {
        InboundView::Message { msg } => routed(state, conn_id, msg, now),
        InboundView::Malformed => Routed { state, sends: seq![malformed(conn_id)] },
        InboundView::Other => ignored(state),
        InboundView::Closed => disconnected(state, conn_id),
    }
}

/// The state after a new connection that sends through `tx` was accepted:
/// it is registered as anonymous under the next identifier.
pub open spec fn connected(state: AppView, tx: Pipeline) -> AppView {
    AppView { clients: state.clients.registered(tx), balances: state.balances }
}

} // verus!
