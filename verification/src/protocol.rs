//! The envelopes exchanged with clients, and their mathematical views.

use vstd::prelude::*;

verus! {

/// One entry of a room roster.
#[derive(Debug, PartialEq, Eq)]
pub struct RoomUser {
    pub id: String,
    pub name: String,
    pub avatar: String,
}

pub struct RoomUserView {
    pub id: Seq<char>,
    pub name: Seq<char>,
    pub avatar: Seq<char>,
}

impl View for RoomUser {
    type V = RoomUserView;

    open spec fn view(&self) -> RoomUserView {
        RoomUserView { id: self.id@, name: self.name@, avatar: self.avatar@ }
    }
}

impl Clone for RoomUser {
    fn clone(&self) -> (copy: Self)
        ensures
            copy@ == self@,
    {
        RoomUser { id: self.id.clone(), name: self.name.clone(), avatar: self.avatar.clone() }
    }
}

/// Where one identified user currently is.
#[derive(Debug, PartialEq, Eq)]
pub struct VoiceState {
    pub user_id: String,
    pub name: String,
    pub avatar: String,
    pub room_id: String,
}

pub struct VoiceStateView {
    pub user_id: Seq<char>,
    pub name: Seq<char>,
    pub avatar: Seq<char>,
    pub room_id: Seq<char>,
}

impl View for VoiceState {
    type V = VoiceStateView;

    open spec fn view(&self) -> VoiceStateView {
        VoiceStateView {
            user_id: self.user_id@,
            name: self.name@,
            avatar: self.avatar@,
            room_id: self.room_id@,
        }
    }
}

impl Clone for VoiceState {
    fn clone(&self) -> (copy: Self)
        ensures
            copy@ == self@,
    {
        VoiceState {
            user_id: self.user_id.clone(),
            name: self.name.clone(),
            avatar: self.avatar.clone(),
            room_id: self.room_id.clone(),
        }
    }
}

/// The views of the elements of a sequence, in order.
pub open spec fn views<T: View>(items: Seq<T>) -> Seq<T::V> {
    items.map_values(|item: T| item@)
}

/// The view of an optional string.
pub open spec fn text_opt(value: Option<String>) -> Option<Seq<char>> {
    match value {
        Some(text) => Some(text@),
        None => None,
    }
}

fn clone_room_users(users: &Vec<RoomUser>) -> (copy: Vec<RoomUser>)
    ensures
        views(copy@) == views(users@),
{
    let mut copy: Vec<RoomUser> = Vec::new();
    let mut i: usize = 0;
    while i < users.len()
        invariant
            i <= users.len(),
            copy.len() == i,
            forall|k: int| 0 <= k < i ==> copy[k]@ == users[k]@,
        decreases users.len() - i,
    {
        copy.push(users[i].clone());
        i += 1;
    }
    copy
}


fn clone_voice_states(states: &Vec<VoiceState>) -> (copy: Vec<VoiceState>)
    ensures
        views(copy@) == views(states@),
{
    let mut copy: Vec<VoiceState> = Vec::new();
    let mut i: usize = 0;
    while i < states.len()
        invariant
            i <= states.len(),
            copy.len() == i,
            forall|k: int| 0 <= k < i ==> copy[k]@ == states[k]@,
        decreases states.len() - i,
    {
        copy.push(states[i].clone());
        i += 1;
    }
    copy
}

fn clone_text_opt(value: &Option<String>) -> (copy: Option<String>)
    ensures
        text_opt(copy) == text_opt(*value),
{
    match value {
        Some(text) => Some(text.clone()),
        None => None,
    }
}

/// What a client may ask of the relay.
#[derive(Debug, PartialEq, Eq)]
pub enum WsMessage {
    /// Claims an identity for the sending connection.
    Identify { user_id: String, name: String, avatar: String },
    /// Enters a room. A room the sender was in is left without notice.
    JoinRoom { room_id: String },
    /// Leaves the room the sender is in.
    LeaveRoom,
    /// Posts a chat line, attributed to the sender and its room.
    ChatMessage { text: String },
    /// Call negotiation for the user `target`, as are `Answer` and
    /// `IceCandidate`.
    Offer { target: String, sdp: String, sender: String },
    Answer { target: String, sdp: String, sender: String },
    IceCandidate { target: String, candidate: String, sender: String },
    /// Buys `item_id` at `price` from the balance of `user_id`.
    MarketPurchase { user_id: String, item_id: String, price: u64 },
    /// Replaces the text of a chat line.
    EditMessage { message_id: String, new_text: String },
    /// Withdraws a chat line.
    DeleteMessage { message_id: String },
    /// Marks a channel as read up to `timestamp`.
    MessageRead { channel_id: String, timestamp: u64 },
}

pub enum WsMessageView {
    Identify { user_id: Seq<char>, name: Seq<char>, avatar: Seq<char> },
    JoinRoom { room_id: Seq<char> },
    LeaveRoom,
    ChatMessage { text: Seq<char> },
    Offer { target: Seq<char>, sdp: Seq<char>, sender: Seq<char> },
    Answer { target: Seq<char>, sdp: Seq<char>, sender: Seq<char> },
    IceCandidate { target: Seq<char>, candidate: Seq<char>, sender: Seq<char> },
    MarketPurchase { user_id: Seq<char>, item_id: Seq<char>, price: u64 },
    EditMessage { message_id: Seq<char>, new_text: Seq<char> },
    DeleteMessage { message_id: Seq<char> },
    MessageRead { channel_id: Seq<char>, timestamp: u64 },
}

impl View for WsMessage {
    type V = WsMessageView;

    open spec fn view(&self) -> WsMessageView {
        match *self {
            WsMessage::Identify { user_id, name, avatar } => WsMessageView::Identify {
                user_id: user_id@,
                name: name@,
                avatar: avatar@,
            },
            WsMessage::JoinRoom { room_id } => WsMessageView::JoinRoom { room_id: room_id@ },
            WsMessage::LeaveRoom => WsMessageView::LeaveRoom,
            WsMessage::ChatMessage { text } => WsMessageView::ChatMessage { text: text@ },
            WsMessage::Offer { target, sdp, sender } => WsMessageView::Offer {
                target: target@,
                sdp: sdp@,
                sender: sender@,
            },
            WsMessage::Answer { target, sdp, sender } => WsMessageView::Answer {
                target: target@,
                sdp: sdp@,
                sender: sender@,
            },
            WsMessage::IceCandidate { target, candidate, sender } => WsMessageView::IceCandidate {
                target: target@,
                candidate: candidate@,
                sender: sender@,
            },
            WsMessage::MarketPurchase { user_id, item_id, price } => WsMessageView::MarketPurchase {
                user_id: user_id@,
                item_id: item_id@,
                price,
            },
            WsMessage::EditMessage { message_id, new_text } => WsMessageView::EditMessage {
                message_id: message_id@,
                new_text: new_text@,
            },
            WsMessage::DeleteMessage { message_id } => WsMessageView::DeleteMessage {
                message_id: message_id@,
            },
            WsMessage::MessageRead { channel_id, timestamp } => WsMessageView::MessageRead {
                channel_id: channel_id@,
                timestamp,
            },
        }
    }
}

impl Clone for WsMessage {
    fn clone(&self) -> (copy: Self)
        ensures
            copy@ == self@,
    {
        match self {
            WsMessage::Identify { user_id, name, avatar } => WsMessage::Identify {
                user_id: user_id.clone(),
                name: name.clone(),
                avatar: avatar.clone(),
            },
            WsMessage::JoinRoom { room_id } => WsMessage::JoinRoom { room_id: room_id.clone() },
            WsMessage::LeaveRoom => WsMessage::LeaveRoom,
            WsMessage::ChatMessage { text } => WsMessage::ChatMessage { text: text.clone() },
            WsMessage::Offer { target, sdp, sender } => WsMessage::Offer {
                target: target.clone(),
                sdp: sdp.clone(),
                sender: sender.clone(),
            },
            WsMessage::Answer { target, sdp, sender } => WsMessage::Answer {
                target: target.clone(),
                sdp: sdp.clone(),
                sender: sender.clone(),
            },
            WsMessage::IceCandidate { target, candidate, sender } => WsMessage::IceCandidate {
                target: target.clone(),
                candidate: candidate.clone(),
                sender: sender.clone(),
            },
            WsMessage::MarketPurchase { user_id, item_id, price } => WsMessage::MarketPurchase {
                user_id: user_id.clone(),
                item_id: item_id.clone(),
                price: *price,
            },
            WsMessage::EditMessage { message_id, new_text } => WsMessage::EditMessage {
                message_id: message_id.clone(),
                new_text: new_text.clone(),
            },
            WsMessage::DeleteMessage { message_id } => WsMessage::DeleteMessage {
                message_id: message_id.clone(),
            },
            WsMessage::MessageRead { channel_id, timestamp } => WsMessage::MessageRead {
                channel_id: channel_id.clone(),
                timestamp: *timestamp,
            },
        }
    }
}

/// What the relay may tell a client.
#[derive(Debug, PartialEq, Eq)]
pub enum WsResponse {
    /// The claim of an identity was taken.
    Identified { success: bool },
    /// Who was in the room when the receiver joined it.
    RoomUsers { users: Vec<RoomUser> },
    /// Somebody entered the receiver's room.
    UserJoined { user_id: String, name: String, avatar: String },
    /// Somebody left the receiver's room.
    UserLeft { user_id: String },
    ChatMessage {
        user_id: String,
        name: String,
        avatar: String,
        text: String,
        timestamp: u64,
        channel_id: String,
    },
    Offer { sender: String, sdp: String },
    Answer { sender: String, sdp: String },
    IceCandidate { sender: String, candidate: String },
    /// The outcome of a purchase and the balance it left.
    PurchaseResult { success: bool, new_balance: u64, message: String },
    /// A frame of the receiver could not be understood.
    Error { message: String },
    /// Every connection that is in a room.
    GlobalVoiceState { states: Vec<VoiceState> },
    /// One user entered `room_id`, or is in no room any more.
    VoiceStateUpdate { user_id: String, name: String, avatar: String, room_id: Option<String> },
    MessageEdited { message_id: String, new_text: String, channel_id: String },
    MessageDeleted { message_id: String, channel_id: String },
    MessageRead { user_id: String, channel_id: String, timestamp: u64 },
}

pub enum WsResponseView {
    Identified { success: bool },
    RoomUsers { users: Seq<RoomUserView> },
    UserJoined { user_id: Seq<char>, name: Seq<char>, avatar: Seq<char> },
    UserLeft { user_id: Seq<char> },
    ChatMessage {
        user_id: Seq<char>,
        name: Seq<char>,
        avatar: Seq<char>,
        text: Seq<char>,
        timestamp: u64,
        channel_id: Seq<char>,
    },
    Offer { sender: Seq<char>, sdp: Seq<char> },
    Answer { sender: Seq<char>, sdp: Seq<char> },
    IceCandidate { sender: Seq<char>, candidate: Seq<char> },
    PurchaseResult { success: bool, new_balance: u64, message: Seq<char> },
    Error { message: Seq<char> },
    GlobalVoiceState { states: Seq<VoiceStateView> },
    VoiceStateUpdate {
        user_id: Seq<char>,
        name: Seq<char>,
        avatar: Seq<char>,
        room_id: Option<Seq<char>>,
    },
    MessageEdited { message_id: Seq<char>, new_text: Seq<char>, channel_id: Seq<char> },
    MessageDeleted { message_id: Seq<char>, channel_id: Seq<char> },
    MessageRead { user_id: Seq<char>, channel_id: Seq<char>, timestamp: u64 },
}

impl View for WsResponse {
    type V = WsResponseView;

    open spec fn view(&self) -> WsResponseView {
        match *self {
            WsResponse::Identified { success } => WsResponseView::Identified { success },
            WsResponse::RoomUsers { users } => WsResponseView::RoomUsers { users: views(users@) },
            WsResponse::UserJoined { user_id, name, avatar } => WsResponseView::UserJoined {
                user_id: user_id@,
                name: name@,
                avatar: avatar@,
            },
            WsResponse::UserLeft { user_id } => WsResponseView::UserLeft { user_id: user_id@ },
            WsResponse::ChatMessage { user_id, name, avatar, text, timestamp, channel_id } => {
                WsResponseView::ChatMessage {
                    user_id: user_id@,
                    name: name@,
                    avatar: avatar@,
                    text: text@,
                    timestamp,
                    channel_id: channel_id@,
                }
            },
            WsResponse::Offer { sender, sdp } => WsResponseView::Offer {
                sender: sender@,
                sdp: sdp@,
            },
            WsResponse::Answer { sender, sdp } => WsResponseView::Answer {
                sender: sender@,
                sdp: sdp@,
            },
            WsResponse::IceCandidate { sender, candidate } => WsResponseView::IceCandidate {
                sender: sender@,
                candidate: candidate@,
            },
            WsResponse::PurchaseResult { success, new_balance, message } => {
                WsResponseView::PurchaseResult {
                    success,
                    new_balance,
                    message: message@,
                }
            },
            WsResponse::Error { message } => WsResponseView::Error { message: message@ },
            WsResponse::GlobalVoiceState { states } => WsResponseView::GlobalVoiceState {
                states: views(states@),
            },
            WsResponse::VoiceStateUpdate { user_id, name, avatar, room_id } => {
                WsResponseView::VoiceStateUpdate {
                    user_id: user_id@,
                    name: name@,
                    avatar: avatar@,
                    room_id: text_opt(room_id),
                }
            },
            WsResponse::MessageEdited { message_id, new_text, channel_id } => {
                WsResponseView::MessageEdited {
                    message_id: message_id@,
                    new_text: new_text@,
                    channel_id: channel_id@,
                }
            },
            WsResponse::MessageDeleted { message_id, channel_id } => {
                WsResponseView::MessageDeleted {
                    message_id: message_id@,
                    channel_id: channel_id@,
                }
            },
            WsResponse::MessageRead { user_id, channel_id, timestamp } => {
                WsResponseView::MessageRead {
                    user_id: user_id@,
                    channel_id: channel_id@,
                    timestamp,
                }
            },
        }
    }
}

impl Clone for WsResponse {
    fn clone(&self) -> (copy: Self)
        ensures
            copy@ == self@,
    {
        match self {
            WsResponse::Identified { success } => WsResponse::Identified { success: *success },
            WsResponse::RoomUsers { users } => WsResponse::RoomUsers {
                users: clone_room_users(users),
            },
            WsResponse::UserJoined { user_id, name, avatar } => WsResponse::UserJoined {
                user_id: user_id.clone(),
                name: name.clone(),
                avatar: avatar.clone(),
            },
            WsResponse::UserLeft { user_id } => WsResponse::UserLeft { user_id: user_id.clone() },
            WsResponse::ChatMessage { user_id, name, avatar, text, timestamp, channel_id } => {
                WsResponse::ChatMessage {
                    user_id: user_id.clone(),
                    name: name.clone(),
                    avatar: avatar.clone(),
                    text: text.clone(),
                    timestamp: *timestamp,
                    channel_id: channel_id.clone(),
                }
            },
            WsResponse::Offer { sender, sdp } => WsResponse::Offer {
                sender: sender.clone(),
                sdp: sdp.clone(),
            },
            WsResponse::Answer { sender, sdp } => WsResponse::Answer {
                sender: sender.clone(),
                sdp: sdp.clone(),
            },
            WsResponse::IceCandidate { sender, candidate } => WsResponse::IceCandidate {
                sender: sender.clone(),
                candidate: candidate.clone(),
            },
            WsResponse::PurchaseResult { success, new_balance, message } => {
                WsResponse::PurchaseResult {
                    success: *success,
                    new_balance: *new_balance,
                    message: message.clone(),
                }
            },
            WsResponse::Error { message } => WsResponse::Error { message: message.clone() },
            WsResponse::GlobalVoiceState { states } => WsResponse::GlobalVoiceState {
                states: clone_voice_states(states),
            },
            WsResponse::VoiceStateUpdate { user_id, name, avatar, room_id } => {
                WsResponse::VoiceStateUpdate {
                    user_id: user_id.clone(),
                    name: name.clone(),
                    avatar: avatar.clone(),
                    room_id: clone_text_opt(room_id),
                }
            },
            WsResponse::MessageEdited { message_id, new_text, channel_id } => {
                WsResponse::MessageEdited {
                    message_id: message_id.clone(),
                    new_text: new_text.clone(),
                    channel_id: channel_id.clone(),
                }
            },
            WsResponse::MessageDeleted { message_id, channel_id } => WsResponse::MessageDeleted {
                message_id: message_id.clone(),
                channel_id: channel_id.clone(),
            },
            WsResponse::MessageRead { user_id, channel_id, timestamp } => WsResponse::MessageRead {
                user_id: user_id.clone(),
                channel_id: channel_id.clone(),
                timestamp: *timestamp,
            },
        }
    }
}

/// One payload owed to one connection.
#[derive(Debug, PartialEq, Eq)]
pub struct Outbound {
    pub conn_id: u64,
    pub payload: WsResponse,
}

pub struct OutboundView {
    pub conn_id: u64,
    pub payload: WsResponseView,
}

impl View for Outbound {
    type V = OutboundView;

    open spec fn view(&self) -> OutboundView {
        OutboundView { conn_id: self.conn_id, payload: self.payload@ }
    }
}

impl Clone for Outbound {
    fn clone(&self) -> (copy: Self)
        ensures
            copy@ == self@,
    {
        Outbound { conn_id: self.conn_id, payload: self.payload.clone() }
    }
}

/// What the transport has just read from a connection.
#[derive(Debug, PartialEq, Eq)]
pub enum Inbound {
    /// A text frame that holds a message.
    Message { msg: WsMessage },
    /// A text frame that could not be understood.
    Malformed,
    /// A frame that carries no text.
    Other,
    /// The stream ended, or reading from it failed.
    Closed,
}

pub enum InboundView {
    Message { msg: WsMessageView },
    Malformed,
    Other,
    Closed,
}

impl View for Inbound {
    type V = InboundView;

    open spec fn view(&self) -> InboundView {
        match *self {
            Inbound::Message { msg } => InboundView::Message { msg: msg@ },
            Inbound::Malformed => InboundView::Malformed,
            Inbound::Other => InboundView::Other,
            Inbound::Closed => InboundView::Closed,
        }
    }
}

} // verus!
