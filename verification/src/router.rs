//! The router: it handles each inbound event as the state machine of the
//! relay says, and offers what is owed to the pipelines.
//!
//! Every handler returns the payloads it owes, each addressed to one
//! connection. Enqueueing them is a step of its own, so that what was
//! decided can be told apart from what the pipelines took.

use crate::ledger::BalanceLedger;
use crate::model::{
    chatted, connected, deleted, disconnected, edited, identified, joined, left, malformed,
    purchased, read, received, routed, signaled, voice_update, AppView,
};
use crate::pipeline::{Pipeline, PipelineFull, PIPELINE_CAPACITY};
use crate::presence::{broadcast_to_all, broadcast_to_room, global_voice_state, room_users};
use crate::protocol::{text_opt, views, Inbound, Outbound, WsMessage, WsResponse};
use crate::registry::{ConnectionRegistry, RegistryView};
use crate::relay::forward;
use crate::session::{Identity, Session, SessionView};
use tokio::sync::mpsc::Receiver;
use vstd::prelude::*;

verus! {

/// Everything the relay remembers: who is connected, and what each user
/// holds.
pub struct AppState {
    pub clients: ConnectionRegistry,
    pub balances: BalanceLedger,
}

impl View for AppState {
    type V = AppView;

    open spec fn view(&self) -> AppView {
        AppView { clients: self.clients@, balances: self.balances@ }
    }
}

/// What the relay owes after an inbound event, and whether the transport
/// is to go on reading from the connection.
pub struct Reaction {
    pub sends: Vec<Outbound>,
    pub keep_reading: bool,
}

/// What became of one payload that was due.
#[derive(Clone, Copy, Debug, PartialEq, Eq, Structural)]
pub enum Delivery {
    /// The pipeline of the connection took it, or is dead and swallowed it.
    Accepted,
    /// The pipeline of the connection was full: the payload is lost.
    Refused,
    /// No such connection is registered any more: the payload is lost.
    Unroutable,
}

/// What `deliver` reports for a payload, given the answer of the pipeline
/// it was offered to, or `None` if its connection was not registered.
pub open spec fn delivery_of(answer: Option<Result<(), PipelineFull>>) -> Delivery {
    match answer {
        None => Delivery::Unroutable,
        Some(Ok(_)) => Delivery::Accepted,
        Some(Err(_)) => Delivery::Refused,
    }
}

/// Names what became of a payload from the answer of its pipeline.
pub fn delivery(answer: Option<Result<(), PipelineFull>>) -> (outcome: Delivery)
    ensures
        outcome == delivery_of(answer),
{
    match answer {
        None => Delivery::Unroutable,
        Some(Ok(_)) => Delivery::Accepted,
        Some(Err(_)) => Delivery::Refused,
    }
}

/// The payload that tells of a change of room.
fn voice_update_for(identity: &Identity, room_id: Option<String>) -> (payload: WsResponse)
    ensures
        payload@ == voice_update(identity@, text_opt(room_id)),
{
    WsResponse::VoiceStateUpdate {
        user_id: identity.user_id.clone(),
        name: identity.name.clone(),
        avatar: identity.avatar.clone(),
        room_id,
    }
}

impl AppState {
    /// The relay at start: nobody connected, no balance recorded.
    pub fn new() -> (state: Self)
        ensures
            state@ == (AppView {
                clients: RegistryView::empty(),
                balances: Map::<Seq<char>, u64>::empty(),
            }),
    {
        AppState { clients: ConnectionRegistry::new(), balances: BalanceLedger::new() }
    }

    /// Accepts a connection: opens a pipeline of [`PIPELINE_CAPACITY`]
    /// payloads, registers the connection as anonymous with that pipeline,
    /// and returns its identifier with the consuming end of the pipeline.
    /// Once the identifiers are used up nothing is accepted.
    pub fn connect(&mut self) -> (accepted: Option<(u64, Receiver<WsResponse>)>)
        ensures
            match accepted {
                Some((id, _)) => id == old(self)@.clients.next_id && exists|tx: Pipeline|
                    #[trigger] tx.bound() == PIPELINE_CAPACITY && final(self)@ == connected(
                        old(self)@,
                        tx,
                    ),
                None => old(self)@.clients.next_id == u64::MAX && final(self)@ == old(self)@,
            },
    {
        let (tx, rx) = Pipeline::open();
        match self.clients.register(tx) {
            Some(id) => Some((id, rx)),
            None => None,
        }
    }

    /// Handles `Identify`.
    pub fn identify(&mut self, conn_id: u64, identity: Identity) -> (sends: Vec<Outbound>)
        ensures
            final(self)@ == identified(old(self)@, conn_id, identity@).state,
            views(sends@) == identified(old(self)@, conn_id, identity@).sends,
    {
        let known = self.clients.lookup(conn_id).is_some();
        let user_id = identity.user_id.clone();
        self.clients.bind_identity(conn_id, identity);
        let mut sends: Vec<Outbound> = Vec::new();
        if known {
            sends.push(Outbound { conn_id, payload: WsResponse::Identified { success: true } });
            let states = global_voice_state(&self.clients);
            sends.push(Outbound { conn_id, payload: WsResponse::GlobalVoiceState { states } });
        }
        self.balances.get_or_init(&user_id);
        sends
    }

    /// Handles `JoinRoom`.
    pub fn join_room(&mut self, conn_id: u64, room_id: String) -> (sends: Vec<Outbound>)
        ensures
            final(self)@ == joined(old(self)@, conn_id, room_id@).state,
            views(sends@) == joined(old(self)@, conn_id, room_id@).sends,
    {
        let identity = match self.clients.lookup(conn_id) {
            Some(client) => match client.session.identity() {
                Some(identity) => identity.clone(),
                None => {
                    return Vec::new();
                },
            },
            None => {
                return Vec::new();
            },
        };
        let users = room_users(&self.clients, &room_id, conn_id);
        self.clients.set_room(conn_id, Some(room_id.clone()));
        let mut sends: Vec<Outbound> = Vec::new();
        sends.push(Outbound { conn_id, payload: WsResponse::RoomUsers { users } });
        let entered = WsResponse::UserJoined {
            user_id: identity.user_id.clone(),
            name: identity.name.clone(),
            avatar: identity.avatar.clone(),
        };
        let mut to_room = broadcast_to_room(&self.clients, &room_id, conn_id, &entered);
        let update = voice_update_for(&identity, Some(room_id));
        let mut to_all = broadcast_to_all(&self.clients, &update);
        sends.append(&mut to_room);
        sends.append(&mut to_all);
        sends
    }

    /// Handles `LeaveRoom`.
    pub fn leave_room(&mut self, conn_id: u64) -> (sends: Vec<Outbound>)
        ensures
            final(self)@ == left(old(self)@, conn_id).state,
            views(sends@) == left(old(self)@, conn_id).sends,
    {
        let (identity, room_id) = match self.clients.lookup(conn_id) {
            Some(client) => match &client.session {
                Session::InRoom { identity, room } => (identity.clone(), room.clone()),
                _ => {
                    return Vec::new();
                },
            },
            None => {
                return Vec::new();
            },
        };
        self.clients.set_room(conn_id, None);
        let gone = WsResponse::UserLeft { user_id: identity.user_id.clone() };
        let mut sends = broadcast_to_room(&self.clients, &room_id, conn_id, &gone);
        let update = voice_update_for(&identity, None);
        let mut to_all = broadcast_to_all(&self.clients, &update);
        sends.append(&mut to_all);
        sends
    }

    /// The identity and room of the connection `conn_id`, if it is in a
    /// room.
    fn attribution(&self, conn_id: u64) -> (found: Option<(Identity, String)>)
        ensures
            match found {
                Some((identity, room)) => self@.clients.session(conn_id) == Some(
                    SessionView::InRoom { identity: identity@, room: room@ },
                ),
                None => !(self@.clients.session(conn_id) matches Some(SessionView::InRoom { .. })),
            },
    {
        match self.clients.lookup(conn_id) {
            Some(client) => match &client.session {
                Session::InRoom { identity, room } => Some((identity.clone(), room.clone())),
                _ => None,
            },
            None => None,
        }
    }

    /// Handles `ChatMessage`, stamped with the time `now`.
    pub fn chat_message(&self, conn_id: u64, text: String, now: u64) -> (sends: Vec<Outbound>)
        ensures
            views(sends@) == chatted(self@, conn_id, text@, now).sends,
    {
        match self.attribution(conn_id) {
            Some((identity, room)) => {
                let line = WsResponse::ChatMessage {
                    user_id: identity.user_id,
                    name: identity.name,
                    avatar: identity.avatar,
                    text,
                    timestamp: now,
                    channel_id: room,
                };
                broadcast_to_all(&self.clients, &line)
            },
            None => Vec::new(),
        }
    }

    /// Handles `EditMessage`.
    pub fn edit_message(&self, conn_id: u64, message_id: String, new_text: String) -> (sends:
        Vec<Outbound>)
        ensures
            views(sends@) == edited(self@, conn_id, message_id@, new_text@).sends,
    {
        match self.attribution(conn_id) {
            Some((_, room)) => {
                let edit = WsResponse::MessageEdited { message_id, new_text, channel_id: room };
                broadcast_to_all(&self.clients, &edit)
            },
            None => Vec::new(),
        }
    }

    /// Handles `DeleteMessage`.
    pub fn delete_message(&self, conn_id: u64, message_id: String) -> (sends: Vec<Outbound>)
        ensures
            views(sends@) == deleted(self@, conn_id, message_id@).sends,
    {
        match self.attribution(conn_id) {
            Some((_, room)) => {
                let deletion = WsResponse::MessageDeleted { message_id, channel_id: room };
                broadcast_to_all(&self.clients, &deletion)
            },
            None => Vec::new(),
        }
    }

    /// Handles `MessageRead`.
    pub fn message_read(&self, conn_id: u64, channel_id: String, timestamp: u64) -> (sends:
        Vec<Outbound>)
        ensures
            views(sends@) == read(self@, conn_id, channel_id@, timestamp).sends,
    {
        let user_id = match self.clients.lookup(conn_id) {
            Some(client) => match client.session.identity() {
                Some(identity) => identity.user_id.clone(),
                None => {
                    return Vec::new();
                },
            },
            None => {
                return Vec::new();
            },
        };
        let receipt = WsResponse::MessageRead { user_id, channel_id, timestamp };
        broadcast_to_all(&self.clients, &receipt)
    }

    /// Handles `Offer`, `Answer` and `IceCandidate`: `payload` is the
    /// request without its target.
    pub fn signal(&self, target: String, payload: WsResponse) -> (sends: Vec<Outbound>)
        ensures
            views(sends@) == signaled(self@, target@, payload@).sends,
    {
        forward(&self.clients, &target, &payload)
    }

    /// Handles `MarketPurchase`.
    pub fn market_purchase(
        &mut self,
        conn_id: u64,
        user_id: String,
        item_id: String,
        price: u64,
    ) -> (sends: Vec<Outbound>)
        ensures
            final(self)@ == purchased(old(self)@, conn_id, user_id@, item_id@, price).state,
            views(sends@) == purchased(old(self)@, conn_id, user_id@, item_id@, price).sends,
    {
        let (success, new_balance) = self.balances.try_debit(&user_id, price);
        let mut sends: Vec<Outbound> = Vec::new();
        if self.clients.lookup(conn_id).is_some() {
            let message = if success {
                String::from_str("Successfully purchased item: ").concat(item_id.as_str())
            } else {
                String::from_str("Insufficient balance")
            };
            sends.push(
                Outbound {
                    conn_id,
                    payload: WsResponse::PurchaseResult { success, new_balance, message },
                },
            );
        }
        sends
    }

    /// Handles one message read from the connection `conn_id` at the time
    /// `now`, in milliseconds since the epoch, and returns what is owed to
    /// whom, in the order in which it is to be enqueued.
    pub fn handle_message(&mut self, conn_id: u64, msg: WsMessage, now: u64) -> (sends:
        Vec<Outbound>)
        ensures
            final(self)@ == routed(old(self)@, conn_id, msg@, now).state,
            views(sends@) == routed(old(self)@, conn_id, msg@, now).sends,
    {
        match msg {
            WsMessage::Identify { user_id, name, avatar } => self.identify(
                conn_id,
                Identity { user_id, name, avatar },
            ),
            WsMessage::JoinRoom { room_id } => self.join_room(conn_id, room_id),
            WsMessage::LeaveRoom => self.leave_room(conn_id),
            WsMessage::ChatMessage { text } => self.chat_message(conn_id, text, now),
            WsMessage::Offer { target, sdp, sender } => self.signal(
                target,
                WsResponse::Offer { sender, sdp },
            ),
            WsMessage::Answer { target, sdp, sender } => self.signal(
                target,
                WsResponse::Answer { sender, sdp },
            ),
            WsMessage::IceCandidate { target, candidate, sender } => self.signal(
                target,
                WsResponse::IceCandidate { sender, candidate },
            ),
            WsMessage::MarketPurchase { user_id, item_id, price } => self.market_purchase(
                conn_id,
                user_id,
                item_id,
                price,
            ),
            WsMessage::EditMessage { message_id, new_text } => self.edit_message(
                conn_id,
                message_id,
                new_text,
            ),
            WsMessage::DeleteMessage { message_id } => self.delete_message(conn_id, message_id),
            WsMessage::MessageRead { channel_id, timestamp } => self.message_read(
                conn_id,
                channel_id,
                timestamp,
            ),
        }
    }

    /// Ends the connection `conn_id` and returns what is owed to those who
    /// remain. Calling it again for the same connection does nothing.
    pub fn disconnect(&mut self, conn_id: u64) -> (sends: Vec<Outbound>)
        ensures
            final(self)@ == disconnected(old(self)@, conn_id).state,
            views(sends@) == disconnected(old(self)@, conn_id).sends,
    {
        let removed = self.clients.unregister(conn_id);
        match removed {
            Some(client) => match client.session {
                Session::InRoom { identity, room } => {
                    let gone = WsResponse::UserLeft { user_id: identity.user_id.clone() };
                    let mut sends = broadcast_to_room(&self.clients, &room, conn_id, &gone);
                    let update = voice_update_for(&identity, None);
                    let mut to_all = broadcast_to_all(&self.clients, &update);
                                            sends.append(&mut to_all);
                    sends
                },
                _ => Vec::new(),
            },
            None => Vec::new(),
        }
    }

    /// Handles whatever the transport has just read from the connection
    /// `conn_id`, at the time `now` in milliseconds since the epoch. It
    /// returns what is owed to whom, in the order in which it is to be
    /// enqueued, and tells the transport to stop reading once the stream
    /// has ended.
    pub fn receive(&mut self, conn_id: u64, event: Inbound, now: u64) -> (reaction: Reaction)
        ensures
            final(self)@ == received(old(self)@, conn_id, event@, now).state,
            views(reaction.sends@) == received(old(self)@, conn_id, event@, now).sends,
            reaction.keep_reading == !(event is Closed),
    {
        match event {
            Inbound::Message { msg } => Reaction {
                sends: self.handle_message(conn_id, msg, now),
                keep_reading: true,
            },
            Inbound::Malformed => {
                let mut sends: Vec<Outbound> = Vec::new();
                sends.push(malformed_reply(conn_id));
                Reaction { sends, keep_reading: true }
            },
            Inbound::Other => Reaction { sends: Vec::new(), keep_reading: true },
            Inbound::Closed => Reaction { sends: self.disconnect(conn_id), keep_reading: false },
        }
    }

    /// Offers each payload to the pipeline of its connection, in order and
    /// without waiting, and reports what became of each. A payload for a
    /// connection that is not registered is lost; whether a pipeline takes
    /// a payload is for the pipeline to say. What an event owes is never
    /// unroutable if it is delivered before the next event is handled.
    pub fn deliver(&self, sends: Vec<Outbound>) -> (report: Vec<Delivery>)
        ensures
            report@.len() == sends@.len(),
            forall|i: int|
                0 <= i < sends@.len() ==> (report[i] == Delivery::Unroutable
                    <==> !self@.clients.contains(sends[i].conn_id)),
    {
        let mut report: Vec<Delivery> = Vec::new();
        for send in iter: sends
            invariant
                report@.len() == iter.index(),
                forall|i: int|
                    0 <= i < iter.index() ==> (report[i] == Delivery::Unroutable
                        <==> !self@.clients.contains(sends[i].conn_id)),
        {
            let answer = match self.clients.pipeline(send.conn_id) {
                Some(tx) => Some(tx.enqueue(send.payload)),
                None => None,
            };
            report.push(delivery(answer));
        }
        report
    }
}

/// The reply to a frame of the connection `conn_id` that could not be
/// understood.
pub fn malformed_reply(conn_id: u64) -> (send: Outbound)
    ensures
        send@ == malformed(conn_id),
{
    Outbound {
        conn_id,
        payload: WsResponse::Error { message: String::from_str("Invalid message payload") },
    }
}

} // verus!
